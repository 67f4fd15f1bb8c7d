//! Global-shortcut bindings registered with the desktop portal.

use vstd::prelude::*;

use crate::text::str_equals;

verus! {

pub const SHOW_HISTORY_ID: &'static str = "show-history";

pub const SELECT_PREVIOUS_ID: &'static str = "select-previous";

pub const SELECT_NEXT_ID: &'static str = "select-next";

/// One shortcut to register: its portal id, description and preferred accelerator.
#[derive(Clone, Debug, PartialEq, Eq)]
pub struct Binding {
    pub id: &'static str,
    pub description: &'static str,
    pub accel: String,
}

/// The three bindings in order (show history, newer, older), keeping those whose
/// accelerator is not empty.
pub open spec fn bindings_spec(show_history: Seq<char>, select_previous: Seq<char>, select_next: Seq<char>) -> Seq<(Seq<char>, Seq<char>)> {
    let all = seq![
        (SHOW_HISTORY_ID@, show_history),
        (SELECT_PREVIOUS_ID@, select_previous),
        (SELECT_NEXT_ID@, select_next),
    ];
    all.filter(|b: (Seq<char>, Seq<char>)| b.1.len() > 0)
}

fn push_if_set(out: &mut Vec<Binding>, id: &'static str, description: &'static str, accel: &str)
    ensures
        accel@.len() > 0 ==> final(out)@.len() == old(out)@.len() + 1 && final(out)@.drop_last() == old(
            out,
        )@ && final(out)@.last().id == id && final(out)@.last().description == description
            && final(out)@.last().accel@ == accel@,
        accel@.len() == 0 ==> final(out)@ == old(out)@,
{
    if !accel.is_empty() {
        out.push(Binding { id, description, accel: accel.to_owned() });
        assert(final(out)@.drop_last() =~= old(out)@);
    }
}

pub fn collect_bindings(show_history: &str, select_previous: &str, select_next: &str) -> (r: Vec<
    Binding,
>)
    ensures
        r@.map_values(|b: Binding| (b.id@, b.accel@)) == bindings_spec(
            show_history@,
            select_previous@,
            select_next@,
        ),
{
    let mut out: Vec<Binding> = Vec::new();
    push_if_set(&mut out, SHOW_HISTORY_ID, "Open cosmic-paste history popup", show_history);
    push_if_set(&mut out, SELECT_PREVIOUS_ID, "Select newer clipboard item", select_previous);
    push_if_set(&mut out, SELECT_NEXT_ID, "Select older clipboard item", select_next);
    proof {
        let all = seq![
            (SHOW_HISTORY_ID@, show_history@),
            (SELECT_PREVIOUS_ID@, select_previous@),
            (SELECT_NEXT_ID@, select_next@),
        ];
        let f = |b: (Seq<char>, Seq<char>)| b.1.len() > 0;
        reveal_with_fuel(Seq::filter, 4);
        assert(all.drop_last().drop_last().drop_last() =~= Seq::<(Seq<char>, Seq<char>)>::empty());
        assert(all.drop_last().drop_last() =~= seq![(SHOW_HISTORY_ID@, show_history@)]);
        assert(all.drop_last() =~= seq![
            (SHOW_HISTORY_ID@, show_history@),
            (SELECT_PREVIOUS_ID@, select_previous@),
        ]);
        assert(out@.map_values(|b: Binding| (b.id@, b.accel@)) =~= all.filter(f));
    }
    out
}

/// What an activated global shortcut does.
#[derive(Clone, Copy, Debug, PartialEq, Eq, Structural)]
pub enum ShortcutAction {
    /// Ask the applet to open the history popup.
    ShowHistory,
    /// Select the entry `offset` away from the active one (-1 newer, +1 older).
    SelectAtOffset(i32),
    /// Not a shortcut this daemon registered.
    Ignore,
}

pub fn shortcut_action(id: &str) -> (r: ShortcutAction)
    ensures
        id@ == SHOW_HISTORY_ID@ ==> r == ShortcutAction::ShowHistory,
        id@ == SELECT_PREVIOUS_ID@ ==> r == ShortcutAction::SelectAtOffset(-1i32),
        id@ == SELECT_NEXT_ID@ ==> r == ShortcutAction::SelectAtOffset(1i32),
        id@ != SHOW_HISTORY_ID@ && id@ != SELECT_PREVIOUS_ID@ && id@ != SELECT_NEXT_ID@ ==> r
            == ShortcutAction::Ignore,
{
    proof {
        reveal_strlit("show-history");
        reveal_strlit("select-previous");
        reveal_strlit("select-next");
        assert(SHOW_HISTORY_ID@.len() != SELECT_PREVIOUS_ID@.len());
        assert(SHOW_HISTORY_ID@.len() != SELECT_NEXT_ID@.len());
        assert(SELECT_PREVIOUS_ID@.len() != SELECT_NEXT_ID@.len());
    }
    if str_equals(id, SHOW_HISTORY_ID) {
        ShortcutAction::ShowHistory
    } else if str_equals(id, SELECT_PREVIOUS_ID) {
        ShortcutAction::SelectAtOffset(-1)
    } else if str_equals(id, SELECT_NEXT_ID) {
        ShortcutAction::SelectAtOffset(1)
    } else {
        ShortcutAction::Ignore
    }
}

} // verus!
