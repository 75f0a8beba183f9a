//! Deterministic, versioned impact scoring: `(impact_score, severity)` from
//! source attributes.

use vstd::prelude::*;
use crate::events::Severity;
use crate::text::str_eq;

verus! {

/// Base score of an NWS alert severity.
pub open spec fn nws_base(severity: Option<Seq<char>>) -> u8 {
    match severity {
        Some(s) => if s == "Extreme"@ { 90 } else if s == "Severe"@ { 75 }
            else if s == "Moderate"@ { 50 } else if s == "Minor"@ { 25 } else { 15 },
        None => 15,
    }
}

/// Boost for an NWS alert urgency.
pub open spec fn nws_urgency_boost(urgency: Option<Seq<char>>) -> u8 {
    match urgency {
        Some(u) => if u == "Immediate"@ { 10 } else if u == "Expected"@ { 5 } else { 0 },
        None => 0,
    }
}

/// The severity tier of an impact score.
pub open spec fn tier_of(score: int) -> Severity {
    if score >= 85 { Severity::Critical }
    else if score >= 65 { Severity::High }
    else if score >= 40 { Severity::Moderate }
    else if score >= 20 { Severity::Low }
    else { Severity::Info }
}

/// Rank of a severity tier (Info lowest).
pub open spec fn severity_rank(s: Severity) -> int {
    match s {
        Severity::Info => 0,
        Severity::Low => 1,
        Severity::Moderate => 2,
        Severity::High => 3,
        Severity::Critical => 4,
    }
}

/// The optional view of an optional string slice.
pub open spec fn opt_view(o: Option<&str>) -> Option<Seq<char>> {
    match o {
        Some(s) => Some(s@),
        None => None,
    }
}

/// Compute `(impact_score, severity)` for an NWS alert from its severity and
/// urgency: the severity's base plus the urgency boost, capped at 100, tiered.
pub fn nws_alert(severity: Option<&str>, urgency: Option<&str>) -> (r: (u8, Severity))
    ensures
        r.0 as int == nws_score(opt_view(severity), opt_view(urgency)),
        r.1 == tier_of(r.0 as int),
{
    let base: u8 = match severity {
        Some(s) => if str_eq(s, "Extreme") { 90 } else if str_eq(s, "Severe") { 75 }
            else if str_eq(s, "Moderate") { 50 } else if str_eq(s, "Minor") { 25 } else { 15 },
        None => 15,
    };
    let urgency_boost: u8 = match urgency {
        Some(u) => if str_eq(u, "Immediate") { 10 } else if str_eq(u, "Expected") { 5 } else { 0 },
        None => 0,
    };
    let sum = base + urgency_boost;
    let score = if sum < 100 { sum } else { 100 };
    let tier = if score >= 85 { Severity::Critical }
        else if score >= 65 { Severity::High }
        else if score >= 40 { Severity::Moderate }
        else if score >= 20 { Severity::Low }
        else { Severity::Info };
    (score, tier)
}

/// Scores are bounded and tiers are monotone: a higher score never yields a
/// lower tier, and every NWS alert scores between 15 and 100.
pub proof fn impact_tiers_are_monotone(a: int, b: int, severity: Option<Seq<char>>, urgency: Option<Seq<char>>)
    ensures
        a <= b ==> severity_rank(tier_of(a)) <= severity_rank(tier_of(b)),
        15 <= nws_base(severity) + nws_urgency_boost(urgency) <= 100,
{
}

/// The score of an NWS alert: the severity's base plus the urgency boost,
/// capped at 100.
pub open spec fn nws_score(severity: Option<Seq<char>>, urgency: Option<Seq<char>>) -> int {
    if nws_base(severity) + nws_urgency_boost(urgency) <= 100 {
        nws_base(severity) + nws_urgency_boost(urgency)
    } else {
        100
    }
}

/// NWS severities rank alerts: at any urgency, an `Extreme` alert scores at
/// least as high as a `Severe` one, which scores above a `Moderate` one, above
/// a `Minor` one, above an alert of unknown or absent severity; every
/// unrecognised severity scores as an absent one. Without an urgency boost
/// each recognised severity lands in its own tier: Extreme critical, Severe
/// high, Moderate moderate, Minor low, anything else informational.
pub proof fn nws_severities_rank_alerts(urgency: Option<Seq<char>>, other: Seq<char>)
    requires
        other != "Extreme"@, other != "Severe"@, other != "Moderate"@, other != "Minor"@,
    ensures
        nws_score(Some("Extreme"@), urgency) >= nws_score(Some("Severe"@), urgency),
        nws_score(Some("Severe"@), urgency) > nws_score(Some("Moderate"@), urgency),
        nws_score(Some("Moderate"@), urgency) > nws_score(Some("Minor"@), urgency),
        nws_score(Some("Minor"@), urgency) > nws_score(Some(other), urgency),
        nws_score(Some(other), urgency) == nws_score(None, urgency),
        nws_urgency_boost(urgency) == 0 ==> {
            &&& tier_of(nws_score(Some("Extreme"@), urgency)) == Severity::Critical
            &&& tier_of(nws_score(Some("Severe"@), urgency)) == Severity::High
            &&& tier_of(nws_score(Some("Moderate"@), urgency)) == Severity::Moderate
            &&& tier_of(nws_score(Some("Minor"@), urgency)) == Severity::Low
            &&& tier_of(nws_score(None, urgency)) == Severity::Info
        },
{
    reveal_strlit("Extreme");
    reveal_strlit("Severe");
    reveal_strlit("Moderate");
    reveal_strlit("Minor");
    assert("Extreme"@.len() == 7 && "Severe"@.len() == 6 && "Moderate"@.len() == 8 && "Minor"@.len() == 5);
    assert("Severe"@ != "Extreme"@);
    assert("Moderate"@ != "Extreme"@ && "Moderate"@ != "Severe"@);
    assert("Minor"@ != "Extreme"@ && "Minor"@ != "Severe"@ && "Minor"@ != "Moderate"@);
}

/// NWS urgencies rank alerts too: at any severity an `Immediate` alert scores
/// at least as high as an `Expected` one, which scores at least as high as one
/// of unknown or absent urgency (strictly, below the cap of 100); every
/// unrecognised urgency scores as an absent one.
pub proof fn nws_urgencies_rank_alerts(severity: Option<Seq<char>>, other: Seq<char>)
    requires
        other != "Immediate"@, other != "Expected"@,
    ensures
        nws_score(severity, Some("Immediate"@)) >= nws_score(severity, Some("Expected"@)),
        nws_score(severity, Some("Expected"@)) >= nws_score(severity, Some(other)),
        nws_score(severity, Some(other)) == nws_score(severity, None),
        nws_score(severity, None) + 10 <= 100 ==> nws_score(severity, Some("Immediate"@))
            > nws_score(severity, Some("Expected"@)) > nws_score(severity, None),
{
    reveal_strlit("Immediate");
    reveal_strlit("Expected");
    assert("Immediate"@.len() == 9 && "Expected"@.len() == 8);
    assert("Expected"@ != "Immediate"@);
}

} // verus!
