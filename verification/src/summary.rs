//! The one-line summary of the limits shown at the top of the tray menu.
use vstd::prelude::*;

verus! {

/// Where the limit values came from.
#[derive(Clone, Copy, Debug, PartialEq, Eq, Structural)]
pub enum LimitSource {
    /// The usage endpoint answered.
    Live,
    /// The newest rate-limit event of the local log.
    Cached,
    /// Nothing has been read.
    Unknown,
}

/// The summary: each known limit's remaining percentage, labelled, after
/// `Live` when the values are live and `Cached` otherwise; a waiting notice
/// when no limit is known.
pub open spec fn summary_of(
    short: Option<Seq<char>>,
    weekly: Option<Seq<char>>,
    source: LimitSource,
) -> Seq<char> {
    let label = if source == LimitSource::Live {
        "Live"@
    } else {
        "Cached"@
    };
    match (short, weekly) {
        (None, None) => "Waiting for Codex limit data"@,
        (Some(s), None) => label + " "@ + "Short "@ + s,
        (None, Some(w)) => label + " "@ + "Weekly "@ + w,
        (Some(s), Some(w)) => label + " "@ + "Short "@ + s + " | "@ + "Weekly "@ + w,
    }
}

/// The tray menu's summary line, from the short-window and weekly remaining
/// percentages as the menu prints them.
pub fn summary_text(short: Option<&str>, weekly: Option<&str>, source: LimitSource) -> (r: String)
    ensures
        r@ == summary_of(
            match short {
                Some(s) => Some(s@),
                None => None,
            },
            match weekly {
                Some(w) => Some(w@),
                None => None,
            },
            source,
        ),
{
    if short.is_none() && weekly.is_none() {
        return String::from_str("Waiting for Codex limit data");
    }
    let mut text = if source == LimitSource::Live {
        String::from_str("Live")
    } else {
        String::from_str("Cached")
    };
    text.append(" ");
    match short {
        Some(s) => {
            text.append("Short ");
            text.append(s);
            if let Some(w) = weekly {
                text.append(" | ");
                text.append("Weekly ");
                text.append(w);
            }
        },
        None => {
            if let Some(w) = weekly {
                text.append("Weekly ");
                text.append(w);
            }
        },
    }
    text
}

/// The summary names its source: it starts with `Live` exactly when the
/// values are live and some limit is known.
pub proof fn law_summary_names_source(
    short: Option<Seq<char>>,
    weekly: Option<Seq<char>>,
    source: LimitSource,
)
    requires
        short is Some || weekly is Some,
    ensures
        summary_of(short, weekly, source).take(4) == "Live"@ <==> source == LimitSource::Live,
{
    reveal_strlit("Live");
    reveal_strlit("Cached");
    reveal_strlit(" ");
    let label = if source == LimitSource::Live {
        "Live"@
    } else {
        "Cached"@
    };
    let s = summary_of(short, weekly, source);
    let rest = match (short, weekly) {
        (Some(a), None) => " "@ + "Short "@ + a,
        (None, Some(b)) => " "@ + "Weekly "@ + b,
        (Some(a), Some(b)) => " "@ + "Short "@ + a + " | "@ + "Weekly "@ + b,
        _ => Seq::empty(),
    };
    assert(s =~= label + rest);
    assert(label.len() >= 4);
    assert(s.take(4) =~= label.take(4));
    if source == LimitSource::Live {
        assert(label.take(4) =~= "Live"@);
    } else {
        assert(label.take(4)[0] == 'C');
        assert("Live"@[0] == 'L');
    }
}

} // verus!
