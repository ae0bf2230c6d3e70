use crate::error::PostError;
use crate::front_matter::{later_than, same_instant};
use crate::post::Post;
use vstd::prelude::*;

verus! {

/// What kind of entry a name under the content root is.
#[derive(Debug, Clone, Copy, PartialEq, Eq, Structural)]
pub enum EntryKind {
    Directory,
    NotDirectory,
    /// The entry's type could not be determined.
    Unknown,
}

/// One entry of the content root's listing, in listing order.
#[derive(Debug, Clone)]
pub struct ListedEntry {
    pub name: String,
    pub kind: EntryKind,
}

/// The names of the directory entries of a listing, in listing order.
pub open spec fn directory_names(entries: Seq<ListedEntry>) -> Seq<String>
    decreases entries.len(),
{
    if entries.len() == 0 {
        Seq::empty()
    } else {
        let rest = directory_names(entries.drop_last());
        if entries.last().kind == EntryKind::Directory {
            rest.push(entries.last().name)
        } else {
            rest
        }
    }
}

/// Some entry of the listing has a type that could not be determined.
pub open spec fn has_unknown_entry(entries: Seq<ListedEntry>) -> bool {
    exists|k: int| 0 <= k < entries.len() && #[trigger] entries[k].kind == EntryKind::Unknown
}

/// Keeps the names of the entries that are directories, in listing order.
/// Fails with `EntryMetadataUnavailable` if the type of any entry is unknown.
pub fn select_directories(entries: &Vec<ListedEntry>) -> (r: Result<Vec<String>, PostError>)
    ensures
        has_unknown_entry(entries@) <==> r is Err,
        r is Err ==> r == Err::<Vec<String>, PostError>(PostError::EntryMetadataUnavailable),
        r matches Ok(names) ==> names@ == directory_names(entries@),
{
    let mut names: Vec<String> = Vec::new();
    let mut i: usize = 0;
    while i < entries.len()
        invariant
            i <= entries.len(),
            names@ == directory_names(entries@.subrange(0, i as int)),
            forall|k: int| 0 <= k < i ==> #[trigger] entries@[k].kind != EntryKind::Unknown,
        decreases entries.len() - i,
    {
        let entry = &entries[i];
        assert(entries@.subrange(0, i + 1).drop_last() =~= entries@.subrange(0, i as int));
        match entry.kind {
            EntryKind::Directory => {
                names.push(entry.name.clone());
            },
            EntryKind::NotDirectory => {},
            EntryKind::Unknown => {
                return Err(PostError::EntryMetadataUnavailable);
            },
        }
        i = i + 1;
    }
    assert(entries@.subrange(0, i as int) =~= entries@);
    Ok(names)
}

/// The listing's directory names are exactly the names of its directory
/// entries: each kept name belongs to a directory entry, and each directory
/// entry's name is kept, no other entry contributing.
pub proof fn lemma_directory_names_exact(entries: Seq<ListedEntry>)
    ensures
        forall|k: int|
            0 <= k < directory_names(entries).len() ==> exists|j: int|
                0 <= j < entries.len() && entries[j].kind == EntryKind::Directory
                    && #[trigger] directory_names(entries)[k] == entries[j].name,
        forall|j: int|
            0 <= j < entries.len() && #[trigger] entries[j].kind == EntryKind::Directory
                ==> directory_names(entries).contains(entries[j].name),
    decreases entries.len(),
{
    if entries.len() > 0 {
        let init = entries.drop_last();
        lemma_directory_names_exact(init);
        let names = directory_names(entries);
        let rest = directory_names(init);
        assert forall|k: int| 0 <= k < names.len() implies exists|j: int|
            0 <= j < entries.len() && entries[j].kind == EntryKind::Directory
                && #[trigger] names[k] == entries[j].name by {
            if k < rest.len() {
                let j = choose|j: int|
                    0 <= j < init.len() && init[j].kind == EntryKind::Directory
                        && #[trigger] rest[k] == init[j].name;
                assert(entries[j] == init[j]);
            } else {
                assert(entries[entries.len() - 1] == entries.last());
            }
        }
        assert forall|j: int|
            0 <= j < entries.len() && #[trigger] entries[j].kind == EntryKind::Directory implies names.contains(
            entries[j].name,
        ) by {
            if j < init.len() {
                assert(init[j] == entries[j]);
                let k = choose|k: int| 0 <= k < rest.len() && rest[k] == init[j].name;
                assert(names[k] == rest[k]);
            } else {
                assert(names[names.len() - 1] == entries[j].name);
            }
        }
    }
}

/// `out` holds the posts of `input` rearranged by `perm`: position `k` of
/// `out` holds the post at position `perm[k]` of `input`, each used once.
pub open spec fn is_rearrangement(input: Seq<Post>, out: Seq<Post>, perm: Seq<int>) -> bool {
    &&& out.len() == input.len()
    &&& perm.len() == out.len()
    &&& forall|k: int|
        0 <= k < perm.len() ==> 0 <= #[trigger] perm[k] < input.len() && out[k] == input[perm[k]]
    &&& forall|k: int, l: int| 0 <= k < l < perm.len() ==> #[trigger] perm[k] != #[trigger] perm[l]
}

/// No post is later than one that comes before it.
pub open spec fn is_newest_first(out: Seq<Post>) -> bool {
    forall|k: int, l: int|
        0 <= k < l < out.len() ==> !later_than(#[trigger] out[l].date, #[trigger] out[k].date)
}

/// Posts of the same instant keep the order they had in the input.
pub open spec fn keeps_order_of_ties(out: Seq<Post>, perm: Seq<int>) -> bool {
    forall|k: int, l: int|
        0 <= k < l < out.len() && same_instant(#[trigger] out[k].date, #[trigger] out[l].date)
            ==> perm[k] < perm[l]
}

/// Orders posts newest first; posts of the same instant stay in the order in
/// which they were given (a stable sort, descending by date).
pub fn newest_first(posts: Vec<Post>) -> (r: Vec<Post>)
    ensures
        exists|perm: Seq<int>|
            is_rearrangement(posts@, r@, perm) && is_newest_first(r@) && keeps_order_of_ties(
                r@,
                perm,
            ),
{
    let ghost orig = posts@;
    let mut rest = posts;
    let mut out: Vec<Post> = Vec::new();
    let ghost mut perm: Seq<int> = Seq::empty();
    let ghost mut i: int = 0;
    while rest.len() > 0
        invariant
            0 <= i <= orig.len(),
            rest@ == orig.subrange(i, orig.len() as int),
            out@.len() == i,
            perm.len() == i,
            forall|k: int| 0 <= k < i ==> 0 <= #[trigger] perm[k] < i && out@[k] == orig[perm[k]],
            forall|k: int, l: int| 0 <= k < l < i ==> #[trigger] perm[k] != #[trigger] perm[l],
            is_newest_first(out@),
            keeps_order_of_ties(out@, perm),
        decreases rest.len(),
    {
        let x = rest.remove(0);
        assert(x == orig[i]);
        let mut p: usize = 0;
        while p < out.len() && !x.date.is_later_than(&out[p].date)
            invariant
                p <= out.len(),
                forall|k: int| 0 <= k < p ==> !later_than(x.date, #[trigger] out@[k].date),
            decreases out.len() - p,
        {
            p = p + 1;
        }
        proof {
            if p < out.len() {
                assert forall|l: int| p <= l < out@.len() implies later_than(
                    x.date,
                    #[trigger] out@[l].date,
                ) by {
                    if l > p {
                        assert(!later_than(out@[l].date, out@[p as int].date));
                    }
                }
            }
        }
        let ghost old_out = out@;
        let ghost old_perm = perm;
        out.insert(p, x);
        proof {
            perm = perm.insert(p as int, i);
            assert forall|k: int| 0 <= k < i + 1 implies 0 <= #[trigger] perm[k] < i + 1
                && out@[k] == orig[perm[k]] by {
                if k < p {
                    assert(perm[k] == old_perm[k]);
                } else if k > p {
                    assert(perm[k] == old_perm[k - 1]);
                }
            }
            assert forall|k: int, l: int| 0 <= k < l < i + 1 implies #[trigger] perm[k]
                != #[trigger] perm[l] by {
                if k < p && l < p {
                    assert(old_perm[k] != old_perm[l]);
                } else if k > p && l > p {
                    assert(old_perm[k - 1] != old_perm[l - 1]);
                } else if k < p && l > p {
                    assert(old_perm[k] != old_perm[l - 1]);
                }
            }
            assert forall|k: int, l: int| 0 <= k < l < out@.len() implies !later_than(
                #[trigger] out@[l].date,
                #[trigger] out@[k].date,
            ) by {
                if k < p && l < p {
                    assert(!later_than(old_out[l].date, old_out[k].date));
                } else if k > p && l > p {
                    assert(!later_than(old_out[l - 1].date, old_out[k - 1].date));
                } else if k < p && l > p {
                    assert(!later_than(old_out[l - 1].date, old_out[k].date));
                }
            }
            assert forall|k: int, l: int|
                0 <= k < l < out@.len() && same_instant(
                    #[trigger] out@[k].date,
                    #[trigger] out@[l].date,
                ) implies perm[k] < perm[l] by {
                if k < p && l < p {
                    assert(old_perm[k] < old_perm[l]);
                } else if k > p && l > p {
                    assert(same_instant(old_out[k - 1].date, old_out[l - 1].date));
                    assert(old_perm[k - 1] < old_perm[l - 1]);
                } else if k < p && l > p {
                    assert(same_instant(old_out[k].date, old_out[l - 1].date));
                } else if k == p {
                    assert(later_than(x.date, old_out[l - 1].date));
                }
            }
            assert(rest@ =~= orig.subrange(i + 1, orig.len() as int));
            i = i + 1;
        }
    }
    proof {
        assert(orig.subrange(i, orig.len() as int).len() == 0);
    }
    out
}

/// In a newest-first sequence whose dates are pairwise distinct instants,
/// every post is strictly later than each one after it.
pub proof fn lemma_distinct_dates_strictly_descending(out: Seq<Post>)
    requires
        is_newest_first(out),
        forall|k: int, l: int|
            0 <= k < l < out.len() ==> !same_instant(#[trigger] out[k].date, #[trigger] out[l].date),
    ensures
        forall|k: int, l: int|
            0 <= k < l < out.len() ==> later_than(#[trigger] out[k].date, #[trigger] out[l].date),
{
    assert forall|k: int, l: int| 0 <= k < l < out.len() implies later_than(
        #[trigger] out[k].date,
        #[trigger] out[l].date,
    ) by {
        assert(!later_than(out[l].date, out[k].date));
        assert(!same_instant(out[k].date, out[l].date));
    }
}

} // verus!
