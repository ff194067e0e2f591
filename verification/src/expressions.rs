use vstd::prelude::*;

verus! {

/// The expression list with every entry textually equal to `text` removed;
/// the order of the remaining entries is kept.
pub open spec fn remove_text(list: Seq<Seq<char>>, text: Seq<char>) -> Seq<Seq<char>>
    decreases list.len(),
{
    if list.len() == 0 {
        Seq::empty()
    } else {
        let rest = remove_text(list.drop_last(), text);
        if list.last() == text {
            rest
        } else {
            rest.push(list.last())
        }
    }
}

/// The expression list after saving `text` as a new expression: any entry
/// textually equal to `text` is removed first, then `text` is appended.
pub open spec fn saved_texts(list: Seq<Seq<char>>, text: Seq<char>) -> Seq<Seq<char>> {
    remove_text(list, text).push(text)
}

/// The expression list after replacing every entry equal to `old_text` with
/// `new_text`; all other entries, and the length, are unchanged.
pub open spec fn replaced_texts(
    list: Seq<Seq<char>>,
    old_text: Seq<char>,
    new_text: Seq<char>,
) -> Seq<Seq<char>> {
    Seq::new(list.len(), |i: int| if list[i] == old_text { new_text } else { list[i] })
}

/// No two entries of the list are textually identical.
pub open spec fn distinct_texts(list: Seq<Seq<char>>) -> bool {
    forall|i: int, j: int| 0 <= i < j < list.len() ==> list[i] != list[j]
}

/// An entry survives the removal exactly when it was in the list and is not
/// the removed text.
pub proof fn lemma_remove_text_membership(list: Seq<Seq<char>>, text: Seq<char>)
    ensures
        forall|x: Seq<char>|
            #![trigger remove_text(list, text).contains(x)]
            #![trigger list.contains(x)]
            remove_text(list, text).contains(x) <==> list.contains(x) && x != text,
    decreases list.len(),
{
    if list.len() > 0 {
        let prefix = list.drop_last();
        let rest = remove_text(prefix, text);
        lemma_remove_text_membership(prefix, text);
        assert forall|x: Seq<char>| list.contains(x) && x != text implies remove_text(
            list,
            text,
        ).contains(x) by {
            if x == list.last() {
                assert(remove_text(list, text)[rest.len() as int] == x);
            } else {
                let i = choose|i: int| 0 <= i < list.len() && list[i] == x;
                assert(prefix[i] == x);
                assert(prefix.contains(x));
                assert(rest.contains(x));
                let j = choose|j: int| 0 <= j < rest.len() && rest[j] == x;
                if list.last() != text {
                    assert(remove_text(list, text)[j] == x);
                }
            }
        }
        assert forall|x: Seq<char>| remove_text(list, text).contains(x) implies list.contains(x)
            && x != text by {
            let j = choose|j: int|
                0 <= j < remove_text(list, text).len() && remove_text(list, text)[j] == x;
            if list.last() != text && j == rest.len() {
                assert(x == list.last());
                assert(list[list.len() - 1] == x);
            } else {
                assert(rest[j] == x);
                assert(rest.contains(x));
                let i = choose|i: int| 0 <= i < prefix.len() && prefix[i] == x;
                assert(list[i] == x);
            }
        }
    }
}

/// Removing a text twice is the same as removing it once.
pub proof fn lemma_remove_text_idempotent(list: Seq<Seq<char>>, text: Seq<char>)
    ensures
        remove_text(remove_text(list, text), text) == remove_text(list, text),
    decreases list.len(),
{
    if list.len() > 0 {
        lemma_remove_text_idempotent(list.drop_last(), text);
        if list.last() != text {
            let rest = remove_text(list.drop_last(), text);
            assert(rest.push(list.last()).drop_last() =~= rest);
        }
    }
}

/// Removing a text from a list that ends with that very text is the same as
/// removing it from the list without that final entry.
pub proof fn lemma_remove_text_push_same(list: Seq<Seq<char>>, text: Seq<char>)
    ensures
        remove_text(list.push(text), text) == remove_text(list, text),
{
    assert(list.push(text).drop_last() =~= list);
}

/// Saving the same text twice yields the same list as saving it once.
pub proof fn lemma_saved_texts_idempotent(list: Seq<Seq<char>>, text: Seq<char>)
    ensures
        saved_texts(saved_texts(list, text), text) == saved_texts(list, text),
{
    lemma_remove_text_push_same(remove_text(list, text), text);
    lemma_remove_text_idempotent(list, text);
}

/// Removal keeps the list duplicate-free, and saving a text into a
/// duplicate-free list leaves it duplicate-free: the removed-then-appended
/// text occurs exactly once at the end, and no other entry was touched.
pub proof fn lemma_saved_texts_distinct(list: Seq<Seq<char>>, text: Seq<char>)
    requires
        distinct_texts(list),
    ensures
        distinct_texts(saved_texts(list, text)),
    decreases list.len(),
{
    lemma_remove_text_distinct(list, text);
    lemma_remove_text_membership(list, text);
    let removed = remove_text(list, text);
    assert forall|i: int, j: int|
        0 <= i < j < saved_texts(list, text).len() implies saved_texts(list, text)[i]
        != saved_texts(list, text)[j] by {
        if j == removed.len() {
            assert(removed.contains(removed[i]));
        }
    }
}

/// Removing a text from a duplicate-free list leaves it duplicate-free.
pub proof fn lemma_remove_text_distinct(list: Seq<Seq<char>>, text: Seq<char>)
    requires
        distinct_texts(list),
    ensures
        distinct_texts(remove_text(list, text)),
    decreases list.len(),
{
    if list.len() > 0 {
        assert forall|i: int, j: int|
            0 <= i < j < list.drop_last().len() implies list.drop_last()[i]
            != list.drop_last()[j] by {
            assert(list[i] == list.drop_last()[i]);
            assert(list[j] == list.drop_last()[j]);
        }
        lemma_remove_text_distinct(list.drop_last(), text);
        if list.last() != text {
            lemma_remove_text_membership(list.drop_last(), text);
            let rest = remove_text(list.drop_last(), text);
            assert forall|i: int, j: int|
                0 <= i < j < rest.push(list.last()).len() implies rest.push(list.last())[i]
                != rest.push(list.last())[j] by {
                if j == rest.len() {
                    assert(rest.contains(rest[i]));
                    assert(list.drop_last().contains(rest[i]));
                    let k = choose|k: int|
                        0 <= k < list.drop_last().len() && list.drop_last()[k] == rest[i];
                    assert(list[k] == rest[i]);
                    assert(list[list.len() - 1] == list.last());
                }
            }
        }
    }
}

/// Replacing by alias never appends: in a duplicate-free list that contains
/// the old text, exactly one entry is replaced by the new text, every other
/// entry is unchanged, and the length is unchanged.
pub proof fn lemma_replaced_texts_single(
    list: Seq<Seq<char>>,
    old_text: Seq<char>,
    new_text: Seq<char>,
)
    requires
        distinct_texts(list),
        list.contains(old_text),
    ensures
        replaced_texts(list, old_text, new_text).len() == list.len(),
        exists|k: int|
            0 <= k < list.len() && list[k] == old_text && #[trigger] replaced_texts(
                list,
                old_text,
                new_text,
            )[k] == new_text && (forall|j: int|
                0 <= j < list.len() && j != k ==> replaced_texts(list, old_text, new_text)[j]
                    == list[j]),
{
    let k = choose|k: int| 0 <= k < list.len() && list[k] == old_text;
    assert(replaced_texts(list, old_text, new_text)[k] == new_text);
    assert forall|j: int|
        0 <= j < list.len() && j != k implies replaced_texts(list, old_text, new_text)[j]
        == list[j] by {
        if list[j] == old_text {
            if j < k {
                assert(list[j] != list[k]);
            } else {
                assert(list[k] != list[j]);
            }
        }
    }
}

/// A new ordered list with every entry textually equal to `text` taken out.
pub fn remove_matching(list: &Vec<String>, text: &String) -> (removed: Vec<String>)
    ensures
        removed.deep_view() == remove_text(list.deep_view(), text@),
{
    let mut removed: Vec<String> = Vec::new();
    let mut i: usize = 0;
    while i < list.len()
        invariant
            i <= list.len(),
            removed.deep_view() == remove_text(list.deep_view().take(i as int), text@),
        decreases list.len() - i,
    {
        let ghost prefix = list.deep_view().take(i as int);
        let ghost next = list.deep_view().take(i + 1 as int);
        proof {
            assert(next.drop_last() =~= prefix);
            assert(next.last() == list.deep_view()[i as int]);
        }
        let entry = &list[i];
        if !(*entry == *text) {
            removed.push(entry.clone());
            proof {
                assert(removed.deep_view() =~= remove_text(prefix, text@).push(entry@));
            }
        }
        i = i + 1;
    }
    proof {
        assert(list.deep_view().take(list.len() as int) =~= list.deep_view());
    }
    removed
}

/// The list after saving `text` as a new expression: a prior occurrence is
/// removed, then `text` is appended at the end.
pub fn save_text(list: &Vec<String>, text: String) -> (saved: Vec<String>)
    ensures
        saved.deep_view() == saved_texts(list.deep_view(), text@),
{
    let mut saved = remove_matching(list, &text);
    let ghost removed_view = saved.deep_view();
    saved.push(text);
    proof {
        assert(saved.deep_view() =~= removed_view.push(text@));
    }
    saved
}

/// The list with every entry equal to `old_text` replaced by `new_text`.
pub fn replace_matching(list: &Vec<String>, old_text: &String, new_text: &String) -> (replaced:
    Vec<String>)
    ensures
        replaced.deep_view() == replaced_texts(list.deep_view(), old_text@, new_text@),
{
    let mut replaced: Vec<String> = Vec::new();
    let mut i: usize = 0;
    while i < list.len()
        invariant
            i <= list.len(),
            replaced.deep_view() == replaced_texts(list.deep_view(), old_text@, new_text@).take(
                i as int,
            ),
        decreases list.len() - i,
    {
        let ghost whole = replaced_texts(list.deep_view(), old_text@, new_text@);
        let ghost pre = replaced.deep_view();
        let entry = &list[i];
        if *entry == *old_text {
            replaced.push(new_text.clone());
            proof {
                assert(replaced.deep_view() =~= pre.push(new_text@));
            }
        } else {
            replaced.push(entry.clone());
            proof {
                assert(replaced.deep_view() =~= pre.push(entry@));
            }
        }
        proof {
            assert(list.deep_view()[i as int] == entry@);
            assert(replaced.deep_view() =~= whole.take(i + 1 as int));
        }
        i = i + 1;
    }
    proof {
        let ghost whole = replaced_texts(list.deep_view(), old_text@, new_text@);
        assert(whole.take(list.len() as int) =~= whole);
    }
    replaced
}

} // verus!
