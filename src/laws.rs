use vstd::prelude::*;

use crate::bookmark::{has_id, without_id, Bookmark};
use crate::session::{applied, Action, Command, Event, Outcome, Session, Stage};

verus! {

/// The list left in the store by running `cmds` in order on `start`.
pub open spec fn stored_after(cmds: Seq<Command>, start: Seq<Bookmark>) -> Seq<Bookmark>
    decreases cmds.len(),
{
    if cmds.len() == 0 {
        start
    } else {
        applied(cmds.last(), stored_after(cmds.drop_last(), start))
    }
}

/// The records that the `Add` commands of `cmds` carry, in order.
pub open spec fn added(cmds: Seq<Command>) -> Seq<Bookmark>
    decreases cmds.len(),
{
    if cmds.len() == 0 {
        Seq::empty()
    } else {
        let rest = added(cmds.drop_last());
        match cmds.last() {
            Command::Add(b) => rest.push(b),
            _ => rest,
        }
    }
}

/// Commands that add and list but never delete leave the records in the
/// order they were added, after what was there before.
pub proof fn lemma_adds_keep_insertion_order(cmds: Seq<Command>, start: Seq<Bookmark>)
    requires
        forall|i: int| 0 <= i < cmds.len() ==> !(#[trigger] cmds[i] is Delete),
    ensures
        stored_after(cmds, start) == start + added(cmds),
    decreases cmds.len(),
{
    if cmds.len() == 0 {
        assert(start + Seq::<Bookmark>::empty() =~= start);
    } else {
        let prefix = cmds.drop_last();
        assert forall|i: int| 0 <= i < prefix.len() implies !(#[trigger] prefix[i] is Delete) by {
            assert(prefix[i] == cmds[i]);
        }
        lemma_adds_keep_insertion_order(prefix, start);
        assert(!(cmds[cmds.len() - 1] is Delete));
        match cmds.last() {
            Command::Add(b) => {
                assert(start + added(prefix).push(b) =~= (start + added(prefix)).push(b));
            },
            _ => {},
        }
    }
}

/// After deleting `id`, no record carries it.
pub proof fn lemma_delete_leaves_no_id(s: Seq<Bookmark>, id: i64)
    ensures
        !has_id(applied(Command::Delete(id), s), id),
    decreases s.len(),
{
    if s.len() > 0 {
        lemma_delete_leaves_no_id(s.drop_last(), id);
    }
}

/// Deleting an id that no record carries leaves the list as it was.
pub proof fn lemma_delete_absent_id_keeps_list(s: Seq<Bookmark>, id: i64)
    requires
        !has_id(s, id),
    ensures
        applied(Command::Delete(id), s) == s,
    decreases s.len(),
{
    if s.len() > 0 {
        let prefix = s.drop_last();
        assert(!has_id(prefix, id)) by {
            if has_id(prefix, id) {
                let i = choose|i: int| 0 <= i < prefix.len() && (#[trigger] prefix[i]).id == id;
                assert(s[i] == prefix[i]);
            }
        }
        lemma_delete_absent_id_keeps_list(prefix, id);
        assert(s[s.len() - 1].id != id);
        assert(prefix.push(s.last()) =~= s);
    }
}

/// Listing a store whose file does not exist replies with the empty list
/// and ends the session, so nothing is written.
pub proof fn lemma_list_of_absent_file(sess: Session, next: Session, act: Action)
    requires
        sess.cmd is List,
        sess.spec_accepts(Event::Absent),
        sess.step_post(Event::Absent, next, act),
    ensures
        act matches Action::Finish(Outcome::Listed(v)) && v@ == Seq::<Bookmark>::empty(),
        next.stage == Stage::Done,
        forall|ev: Event| !next.spec_accepts(ev),
{
}

/// A `List` session stays within loading and decoding until it is done,
/// and never asks for the list to be encoded or written.
pub proof fn lemma_list_never_writes(sess: Session, ev: Event, next: Session, act: Action)
    requires
        sess.cmd is List,
        sess.stage == Stage::Loading || sess.stage == Stage::Decoding,
        sess.spec_accepts(ev),
        sess.step_post(ev, next, act),
    ensures
        next.cmd is List,
        next.stage == Stage::Decoding || next.stage == Stage::Done,
        !(act is Encode),
        !(act is Write),
{
}

} // verus!
