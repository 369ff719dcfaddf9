//! Reduction of a list of health checks to one representative status.
//!
//! The pass is order-independent and flag-accumulating. A check whose id
//! flags maintenance short-circuits its own status evaluation; every other
//! check must carry a recognized status, or the whole aggregation yields the
//! empty/unknown sentinel. When no check is self-contradictory the result
//! follows the strict precedence `maintenance > critical > warning >
//! passing`, and an empty list aggregates to `passing`.

use crate::model::{HealthCheck, HealthChecks};
use crate::status::{
    health_critical, health_maint, health_passing, health_warning, is_maintenance_id, node_maint,
    service_maint_prefix,
};
use crate::text::has_prefix;
use vstd::prelude::*;

verus! {

/// Whether a check flags a maintenance window: its id equals the
/// node-maintenance key or starts with the service-maintenance prefix.
pub open spec fn check_is_maintenance(c: HealthCheck) -> bool {
    match c.CheckID {
        Some(id) => is_maintenance_id(id@),
        None => false,
    }
}

/// Whether a check carries exactly the status `token`.
pub open spec fn check_has_status(c: HealthCheck, token: Seq<char>) -> bool {
    match c.Status {
        Some(st) => st@ == token,
        None => false,
    }
}

/// A non-maintenance check whose status is missing or not one of the three
/// recognized tokens makes the whole aggregation indeterminate.
pub open spec fn check_is_indeterminate(c: HealthCheck) -> bool {
    &&& !check_is_maintenance(c)
    &&& !check_has_status(c, "passing"@)
    &&& !check_has_status(c, "warning"@)
    &&& !check_has_status(c, "critical"@)
}

/// Whether some check of the list makes the aggregation indeterminate.
pub open spec fn has_indeterminate(s: Seq<HealthCheck>) -> bool {
    exists|i: int| 0 <= i < s.len() && check_is_indeterminate(s[i])
}

/// Whether some check of the list flags maintenance.
pub open spec fn has_maintenance(s: Seq<HealthCheck>) -> bool {
    exists|i: int| 0 <= i < s.len() && check_is_maintenance(s[i])
}

/// Whether some non-maintenance check of the list carries the status
/// `token`.
pub open spec fn has_status(s: Seq<HealthCheck>, token: Seq<char>) -> bool {
    exists|i: int| 0 <= i < s.len() && !check_is_maintenance(s[i]) && check_has_status(s[i], token)
}

/// The aggregate status of a list of checks: the empty sentinel when any
/// check is self-contradictory, otherwise the most severe flag under the
/// precedence `maintenance > critical > warning > passing`, with `passing`
/// as the optimistic default for an empty list.
pub open spec fn aggregate_spec(s: Seq<HealthCheck>) -> Seq<char> {
    if has_indeterminate(s) {
        Seq::empty()
    } else if has_maintenance(s) {
        "maintenance"@
    } else if has_status(s, "critical"@) {
        "critical"@
    } else if has_status(s, "warning"@) {
        "warning"@
    } else {
        "passing"@
    }
}

impl HealthChecks {
    /// The "best" single representative of this list of checks, under the
    /// precedence `maintenance > critical > warning > passing`; the empty
    /// string when some non-maintenance check lacks a recognized status.
    pub fn aggregates_status(&self) -> (r: String)
        ensures
            r@ == aggregate_spec(self@),
    {
        let mut maintenance: bool = false;
        let mut critical: bool = false;
        let mut warning: bool = false;
        let node_key = node_maint();
        let service_prefix = service_maint_prefix();
        let passing_token = health_passing();
        let warning_token = health_warning();
        let critical_token = health_critical();
        proof {
            reveal_strlit("passing");
            reveal_strlit("warning");
            reveal_strlit("critical");
            assert("passing"@[0] != "warning"@[0]);
            assert("passing"@.len() != "critical"@.len());
            assert("warning"@.len() != "critical"@.len());
        }
        let n = self.0.len();
        let mut k: usize = 0;
        while k < n
            invariant
                "passing"@ != "warning"@,
                "passing"@ != "critical"@,
                "warning"@ != "critical"@,
                n == self.0.len(),
                k <= n,
                node_key@ == "_node_maintenance"@,
                service_prefix@ == "_service_maintenance:"@,
                passing_token@ == "passing"@,
                warning_token@ == "warning"@,
                critical_token@ == "critical"@,
                maintenance == exists|i: int| 0 <= i < k && check_is_maintenance(self@[i]),
                critical == exists|i: int|
                    0 <= i < k && !check_is_maintenance(self@[i]) && check_has_status(
                        self@[i],
                        "critical"@,
                    ),
                warning == exists|i: int|
                    0 <= i < k && !check_is_maintenance(self@[i]) && check_has_status(
                        self@[i],
                        "warning"@,
                    ),
                forall|i: int| 0 <= i < k ==> !check_is_indeterminate(self@[i]),
            decreases n - k,
        {
            let check = &self.0[k];
            let mut is_maint: bool = false;
            if let Some(id) = &check.CheckID {
                if *id == node_key || has_prefix(id.as_str(), service_prefix.as_str()) {
                    is_maint = true;
                }
            }
            proof {
                assert(is_maint == check_is_maintenance(self@[k as int]));
            }
            if is_maint {
                maintenance = true;
            } else {
                match &check.Status {
                    Some(st) => {
                        if *st == passing_token {
                        } else if *st == warning_token {
                            warning = true;
                        } else if *st == critical_token {
                            critical = true;
                        } else {
                            proof {
                                assert(check_is_indeterminate(self@[k as int]));
                            }
                            return String::new();
                        }
                    },
                    None => {
                        proof {
                            assert(check_is_indeterminate(self@[k as int]));
                        }
                        return String::new();
                    },
                }
            }
            k = k + 1;
        }
        if maintenance {
            health_maint()
        } else if critical {
            health_critical()
        } else if warning {
            health_warning()
        } else {
            health_passing()
        }
    }
}

/// Maintenance wins: in a list where every non-maintenance check carries a
/// recognized status, one maintenance-flagged check makes the aggregate
/// `maintenance`, whatever other statuses are present.
pub proof fn lemma_maintenance_wins(s: Seq<HealthCheck>)
    requires
        !has_indeterminate(s),
        has_maintenance(s),
    ensures
        aggregate_spec(s) == "maintenance"@,
{
}

/// Critical wins below maintenance: with no maintenance flag, no
/// indeterminate check, and at least one `critical`, the aggregate is
/// `critical` even when `passing` and `warning` are also present.
pub proof fn lemma_critical_wins(s: Seq<HealthCheck>)
    requires
        !has_indeterminate(s),
        !has_maintenance(s),
        has_status(s, "critical"@),
    ensures
        aggregate_spec(s) == "critical"@,
{
}

/// Warning wins below critical: with no maintenance, no indeterminate check
/// and no `critical`, one `warning` makes the aggregate `warning`.
pub proof fn lemma_warning_wins(s: Seq<HealthCheck>)
    requires
        !has_indeterminate(s),
        !has_maintenance(s),
        !has_status(s, "critical"@),
        has_status(s, "warning"@),
    ensures
        aggregate_spec(s) == "warning"@,
{
}

/// An all-`passing` list, and in particular the empty list, aggregates to
/// `passing`.
pub proof fn lemma_all_passing(s: Seq<HealthCheck>)
    requires
        forall|i: int|
            0 <= i < s.len() ==> !check_is_maintenance(s[i]) && check_has_status(
                s[i],
                "passing"@,
            ),
    ensures
        aggregate_spec(s) == "passing"@,
{
    reveal_strlit("passing");
    reveal_strlit("warning");
    reveal_strlit("critical");
    assert("passing"@[0] != "warning"@[0]);
    assert("passing"@.len() != "critical"@.len());
    assert(!has_indeterminate(s));
    assert(!has_maintenance(s));
    if has_status(s, "critical"@) {
        let i = choose|i: int|
            0 <= i < s.len() && !check_is_maintenance(s[i]) && check_has_status(
                s[i],
                "critical"@,
            );
        assert(check_has_status(s[i], "passing"@));
        assert(false);
    }
    if has_status(s, "warning"@) {
        let i = choose|i: int|
            0 <= i < s.len() && !check_is_maintenance(s[i]) && check_has_status(s[i], "warning"@);
        assert(check_has_status(s[i], "passing"@));
        assert(false);
    }
}

/// The aggregate is always either the empty/unknown sentinel or one of the
/// four real status tokens, and never the wildcard `any`: callers can match
/// on this closed set, treating the sentinel as distinct from every real
/// status.
pub proof fn lemma_aggregate_yields_known_token(s: Seq<HealthCheck>)
    ensures
        aggregate_spec(s) == Seq::<char>::empty() || aggregate_spec(s) == "maintenance"@
            || aggregate_spec(s) == "critical"@ || aggregate_spec(s) == "warning"@
            || aggregate_spec(s) == "passing"@,
        aggregate_spec(s) != "any"@,
{
    reveal_strlit("any");
    reveal_strlit("maintenance");
    reveal_strlit("critical");
    reveal_strlit("warning");
    reveal_strlit("passing");
    assert(aggregate_spec(s).len() != "any"@.len());
}

/// A non-maintenance check with a missing status makes the aggregate the
/// empty/unknown sentinel, which callers must treat as distinct from every
/// real status.
pub proof fn lemma_missing_status_indeterminate(s: Seq<HealthCheck>, i: int)
    requires
        0 <= i < s.len(),
        !check_is_maintenance(s[i]),
        s[i].Status is None,
    ensures
        aggregate_spec(s) == Seq::<char>::empty(),
{
    assert(check_is_indeterminate(s[i]));
}

} // verus!
