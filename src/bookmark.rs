use vstd::prelude::*;

verus! {

/// One saved web reference. The id is chosen by the caller; the store does
/// not make ids unique.
#[derive(Debug, PartialEq, Eq)]
pub struct Bookmark {
    pub id: i64,
    pub title: String,
    pub url: String,
    /// Creation time as the caller wrote it; the store never reads it.
    pub created_at: String,
}

impl Clone for Bookmark {
    fn clone(&self) -> (r: Self)
        ensures
            r == *self,
    {
        Bookmark {
            id: self.id,
            title: self.title.clone(),
            url: self.url.clone(),
            created_at: self.created_at.clone(),
        }
    }
}

/// The records of `s` whose id differs from `id`, in their order in `s`.
pub open spec fn without_id(s: Seq<Bookmark>, id: i64) -> Seq<Bookmark>
    decreases s.len(),
{
    if s.len() == 0 {
        Seq::empty()
    } else {
        let rest = without_id(s.drop_last(), id);
        if s.last().id == id {
            rest
        } else {
            rest.push(s.last())
        }
    }
}

/// Whether some record of `s` carries `id`.
pub open spec fn has_id(s: Seq<Bookmark>, id: i64) -> bool {
    exists|i: int| 0 <= i < s.len() && (#[trigger] s[i]).id == id
}

impl Bookmark {
    pub fn new(id: i64, title: String, url: String, created_at: String) -> (r: Bookmark)
        ensures
            r == (Bookmark { id, title, url, created_at }),
    {
        Bookmark { id, title, url, created_at }
    }
}

/// Copies the records of `list` whose id differs from `id`, keeping their
/// order.
pub fn retain_other_ids(list: &Vec<Bookmark>, id: i64) -> (r: Vec<Bookmark>)
    ensures
        r@ == without_id(list@, id),
{
    let mut kept: Vec<Bookmark> = Vec::new();
    let mut i: usize = 0;
    while i < list.len()
        invariant
            i <= list@.len(),
            kept@ == without_id(list@.take(i as int), id),
        decreases list@.len() - i,
    {
        assert(list@.take(i as int + 1).drop_last() =~= list@.take(i as int));
        if list[i].id != id {
            kept.push(list[i].clone());
        }
        i = i + 1;
    }
    assert(list@.take(list@.len() as int) =~= list@);
    kept
}

} // verus!
