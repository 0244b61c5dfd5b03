//! Turning the fields of a response body into the canonical `Info`.
//!
//! Forge responses carry a title, a base state, and optional override flags;
//! the overrides apply in a fixed order, last write wins: the merged flag,
//! then the draft flag, then the title prefix convention.
use vstd::prelude::*;

use crate::strutil::{has_prefix, starts_with, str_eq};
use crate::{Error, Info, State};

verus! {

/// The fields the normalizer reads from a forge's single-object response.
/// A field is `None` both when it is absent and when it carries a value of
/// the wrong type.
pub struct ForgeFields {
    pub title: Option<String>,
    pub state: Option<String>,
    pub merged: Option<bool>,
    pub draft: Option<bool>,
}

/// One record of a bug tracker's `bugs` array.
pub struct Bug {
    pub summary: String,
    pub is_open: bool,
}

/// The forge fields as plain values: the two texts and the two flags, in
/// the order title, state, merged, draft.
pub open spec fn fields_view(f: ForgeFields) -> (
    Option<Seq<char>>,
    Option<Seq<char>>,
    Option<bool>,
    Option<bool>,
) {
    (
        match f.title {
            Option::Some(t) => Some(t@),
            Option::None => None,
        },
        match f.state {
            Option::Some(s) => Some(s@),
            Option::None => None,
        },
        f.merged,
        f.draft,
    )
}

/// The bug records as plain values: each summary with its open flag.
pub open spec fn bugs_view(bugs: Seq<Bug>) -> Seq<(Seq<char>, bool)> {
    Seq::new(bugs.len(), |k: int| (bugs[k].summary@, bugs[k].is_open))
}

/// The base state a forge's `state` string maps to; `None` for a value
/// outside the known literals.
pub open spec fn state_from_str(s: Seq<char>) -> Option<State> {
    if s == "open"@ || s == "opened"@ {
        Some(State::Open)
    } else if s == "closed"@ || s == "locked"@ {
        Some(State::Closed)
    } else if s == "merged"@ {
        Some(State::Merged)
    } else {
        None
    }
}

/// The title convention that marks a draft on backends without a native
/// draft flag.
pub open spec fn is_wip_title(t: Seq<char>) -> bool {
    has_prefix(t, "wip:"@) || has_prefix(t, "[wip]"@)
}

/// The override cascade: the merged flag replaces the base state, the draft
/// flag replaces that, and the title prefix replaces everything.
pub open spec fn final_state(
    base: State,
    merged: Option<bool>,
    draft: Option<bool>,
    title: Seq<char>,
) -> State {
    let after_merged = if merged matches Some(true) {
        State::Merged
    } else {
        base
    };
    let after_draft = if draft matches Some(true) {
        State::Draft
    } else {
        after_merged
    };
    if is_wip_title(title) {
        State::Draft
    } else {
        after_draft
    }
}

/// A draft flag set to true forces the Draft state, whatever the base state
/// and the merged flag said.
pub proof fn lemma_draft_flag_wins(base: State, merged: Option<bool>, title: Seq<char>)
    ensures
        final_state(base, merged, Some(true), title) == State::Draft,
{
}

/// A wip-prefixed title forces the Draft state, whatever the base state and
/// both flags said.
pub proof fn lemma_wip_title_wins(
    base: State,
    merged: Option<bool>,
    draft: Option<bool>,
    title: Seq<char>,
)
    requires
        is_wip_title(title),
    ensures
        final_state(base, merged, draft, title) == State::Draft,
{
}

/// A merged flag set to true replaces the base state, as long as no later
/// override applies.
pub proof fn lemma_merged_flag_wins(base: State, draft: Option<bool>, title: Seq<char>)
    requires
        !(draft matches Some(true)),
        !is_wip_title(title),
    ensures
        final_state(base, Some(true), draft, title) == State::Merged,
{
}

/// Normalizes a forge's extracted fields: requires a title and a known
/// state, then applies the override cascade.
pub fn normalize_fields(f: &ForgeFields) -> (r: Result<Info, Error>)
    ensures
        f.title is None ==> r == Err::<Info, Error>(Error::FailedMatch),
        (f.title is Some && f.state is None) ==> r == Err::<Info, Error>(Error::FailedMatch),
        f.title matches Some(t) ==> (f.state matches Some(s) ==> (state_from_str(s@) matches Some(
            base,
        ) ==> (r matches Ok(i) && i.title@ == t@ && i.state == final_state(
            base,
            f.merged,
            f.draft,
            t@,
        )))),
        f.state matches Some(s) ==> ((f.title is Some && state_from_str(s@) is None) ==> (
        r matches Err(Error::UnknownState(v)) && v@ == s@)),
{
    let title: String = match &f.title {
        Option::Some(t) => t.clone(),
        Option::None => {
            return Err(Error::FailedMatch);
        },
    };
    let state_str: &String = match &f.state {
        Some(s) => s,
        None => {
            return Err(Error::FailedMatch);
        },
    };
    let mut st: State;
    if str_eq(state_str.as_str(), "open") || str_eq(state_str.as_str(), "opened") {
        st = State::Open;
    } else if str_eq(state_str.as_str(), "closed") || str_eq(state_str.as_str(), "locked") {
        st = State::Closed;
    } else if str_eq(state_str.as_str(), "merged") {
        st = State::Merged;
    } else {
        return Err(Error::UnknownState(state_str.clone()));
    }
    if let Some(m) = f.merged {
        if m {
            st = State::Merged;
        }
    }
    if let Some(d) = f.draft {
        if d {
            st = State::Draft;
        }
    }
    if starts_with(title.as_str(), "wip:") || starts_with(title.as_str(), "[wip]") {
        st = State::Draft;
    }
    Ok(Info { title, state: st })
}

/// Turns each bug record into an `Info`: the summary becomes the title, and
/// the open flag decides between Open and Closed.
pub fn bugs_to_infos(bugs: &Vec<Bug>) -> (r: Vec<Info>)
    ensures
        r@.len() == bugs@.len(),
        forall|k: int|
            0 <= k < bugs@.len() ==> r@[k].title@ == bugs@[k].summary@ && r@[k].state == (
            if bugs@[k].is_open {
                State::Open
            } else {
                State::Closed
            }),
{
    let mut infos: Vec<Info> = Vec::new();
    let mut idx: usize = 0;
    while idx < bugs.len()
        invariant
            idx <= bugs@.len(),
            infos@.len() == idx,
            forall|k: int|
                0 <= k < idx ==> infos@[k].title@ == bugs@[k].summary@ && infos@[k].state == (
                if bugs@[k].is_open {
                    State::Open
                } else {
                    State::Closed
                }),
        decreases bugs@.len() - idx,
    {
        let bug = &bugs[idx];
        let state = if bug.is_open {
            State::Open
        } else {
            State::Closed
        };
        infos.push(Info { title: bug.summary.clone(), state });
        idx += 1;
    }
    infos
}

/// The first resolved record, or the defensive `Unreachable` marker when a
/// single-bug request yielded none.
pub fn first_info(infos: Vec<Info>) -> (r: Result<Info, Error>)
    ensures
        infos@.len() == 0 ==> r == Err::<Info, Error>(Error::Unreachable),
        infos@.len() > 0 ==> (r matches Ok(i) && i == infos@[0]),
{
    let mut infos = infos;
    if infos.len() == 0 {
        Err(Error::Unreachable)
    } else {
        Ok(infos.remove(0))
    }
}

} // verus!
