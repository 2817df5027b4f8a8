//! The list of recently opened pages: newest first, without repeats, and
//! capped in length.
use vstd::prelude::*;

verus! {

/// The store key under which the list is kept.
pub const HistoryOpenedUrls_Key: &'static str = "historyOpenedUrls";

/// How many pages the list keeps once a new one pushes it over.
pub const HISTORY_LIMIT: usize = 5;

/// The list after a page is opened: a page already listed leaves the list as
/// it is; a new page goes first, and the last entry drops out when the list
/// then holds more than `HISTORY_LIMIT` pages.
pub open spec fn remembered(list: Seq<Seq<char>>, url: Seq<char>) -> Seq<Seq<char>> {
    if list.contains(url) {
        list
    } else if list.len() + 1 > HISTORY_LIMIT {
        (seq![url] + list).drop_last()
    } else {
        seq![url] + list
    }
}

/// Records that the page `url` was opened; returns whether the list changed.
pub fn remember_opened_url(list: &mut Vec<String>, url: String) -> (added: bool)
    ensures
        final(list).deep_view() == remembered(old(list).deep_view(), url@),
        added == !old(list).deep_view().contains(url@),
{
    let n = list.len();
    let mut i: usize = 0;
    while i < n
        invariant
            n == list@.len(),
            i <= n,
            forall|k: int| 0 <= k < i ==> list@[k]@ != url@,
        decreases n - i,
    {
        if list[i] == url {
            assert(list.deep_view()[i as int] == url@);
            return false;
        }
        i += 1;
    }
    assert(!list.deep_view().contains(url@)) by {
        if list.deep_view().contains(url@) {
            let k = choose|k: int| 0 <= k < list.deep_view().len() && list.deep_view()[k] == url@;
            assert(list@[k]@ == url@);
        }
    }
    let ghost before = list.deep_view();
    let ghost url_text = url@;
    list.insert(0, url);
    assert(list.deep_view() =~= seq![url_text] + before);
    if list.len() > HISTORY_LIMIT {
        let _ = list.pop();
        assert(list.deep_view() =~= (seq![url_text] + before).drop_last());
    }
    true
}

/// An opened page is in the list afterwards.
pub proof fn lemma_remembered_contains(list: Seq<Seq<char>>, url: Seq<char>)
    ensures
        remembered(list, url).contains(url),
{
    if !list.contains(url) {
        assert(remembered(list, url)[0] == url);
    }
}

/// A page not listed before goes first.
pub proof fn lemma_remembered_new_first(list: Seq<Seq<char>>, url: Seq<char>)
    requires
        !list.contains(url),
    ensures
        remembered(list, url).len() > 0,
        remembered(list, url)[0] == url,
        remembered(list, url).drop_first() == list.take(remembered(list, url).len() - 1),
{
    let r = remembered(list, url);
    assert(r.drop_first() =~= list.take(r.len() - 1));
}

/// Opening the same page twice leaves the list as opening it once does.
pub proof fn lemma_remembered_idempotent(list: Seq<Seq<char>>, url: Seq<char>)
    ensures
        remembered(remembered(list, url), url) == remembered(list, url),
{
    lemma_remembered_contains(list, url);
}

/// A list of at most `HISTORY_LIMIT` pages stays within that length.
pub proof fn lemma_remembered_bounded(list: Seq<Seq<char>>, url: Seq<char>)
    requires
        list.len() <= HISTORY_LIMIT,
    ensures
        remembered(list, url).len() <= HISTORY_LIMIT,
{
}

/// A list without repeats stays without repeats.
pub proof fn lemma_remembered_no_duplicates(list: Seq<Seq<char>>, url: Seq<char>)
    requires
        list.no_duplicates(),
    ensures
        remembered(list, url).no_duplicates(),
{
    if !list.contains(url) {
        let full = seq![url] + list;
        assert(full.no_duplicates()) by {
            assert forall|i: int, j: int|
                0 <= i < full.len() && 0 <= j < full.len() && i != j implies full[i]
                != full[j] by {
                if i == 0 && j > 0 {
                    assert(full[j] == list[j - 1]);
                } else if j == 0 && i > 0 {
                    assert(full[i] == list[i - 1]);
                } else if i > 0 && j > 0 {
                    assert(full[i] == list[i - 1]);
                    assert(full[j] == list[j - 1]);
                }
            }
        }
        let r = remembered(list, url);
        assert forall|i: int, j: int| 0 <= i < r.len() && 0 <= j < r.len() && i != j implies r[i]
            != r[j] by {
            assert(r[i] == full[i]);
            assert(r[j] == full[j]);
        }
    }
}

} // verus!
