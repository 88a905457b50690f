use vstd::prelude::*;

verus! {

/// No url occurs twice among the entries.
pub open spec fn unique_urls<V>(entries: Seq<(String, V)>) -> bool {
    forall|i: int, j: int|
        0 <= i < entries.len() && 0 <= j < entries.len() && i != j ==> entries[i].0@
            != entries[j].0@
}

/// The entries as a map from url to value; a later entry wins over an
/// earlier one with the same url.
pub open spec fn url_map<V>(entries: Seq<(String, V)>) -> Map<Seq<char>, V>
    decreases entries.len(),
{
    if entries.len() == 0 {
        Map::empty()
    } else {
        url_map(entries.drop_last()).insert(entries.last().0@, entries.last().1)
    }
}

/// Every url of the map is the url of an entry, and conversely.
pub proof fn lemma_url_map_keys<V>(entries: Seq<(String, V)>, url: Seq<char>)
    ensures
        url_map(entries).contains_key(url) <==> exists|i: int|
            0 <= i < entries.len() && entries[i].0@ == url,
    decreases entries.len(),
{
    if entries.len() > 0 {
        let prefix = entries.drop_last();
        lemma_url_map_keys(prefix, url);
        if url_map(entries).contains_key(url) && url != entries.last().0@ {
            let i = choose|i: int| 0 <= i < prefix.len() && prefix[i].0@ == url;
            assert(entries[i] == prefix[i]);
        }
        if exists|i: int| 0 <= i < entries.len() && entries[i].0@ == url {
            let i = choose|i: int| 0 <= i < entries.len() && entries[i].0@ == url;
            if i < entries.len() - 1 {
                assert(prefix[i] == entries[i]);
            }
        }
    }
}

/// With unique urls, the map gives each entry's value under its url.
pub proof fn lemma_url_map_entry<V>(entries: Seq<(String, V)>, i: int)
    requires
        unique_urls(entries),
        0 <= i < entries.len(),
    ensures
        url_map(entries).contains_key(entries[i].0@),
        url_map(entries)[entries[i].0@] == entries[i].1,
    decreases entries.len(),
{
    let prefix = entries.drop_last();
    if i < entries.len() - 1 {
        assert(prefix[i] == entries[i]);
        lemma_url_map_entry(prefix, i);
    }
}

/// Replacing the value of one entry, keeping its url, updates the map at
/// that url and keeps the urls unique.
pub proof fn lemma_url_map_update<V>(entries: Seq<(String, V)>, i: int, v: V)
    requires
        unique_urls(entries),
        0 <= i < entries.len(),
    ensures
        url_map(entries.update(i, (entries[i].0, v))) == url_map(entries).insert(entries[i].0@, v),
        unique_urls(entries.update(i, (entries[i].0, v))),
    decreases entries.len(),
{
    let updated = entries.update(i, (entries[i].0, v));
    let prefix = entries.drop_last();
    if i == entries.len() - 1 {
        assert(updated.drop_last() =~= prefix);
        assert(url_map(updated) =~= url_map(entries).insert(entries[i].0@, v));
    } else {
        assert(prefix[i] == entries[i]);
        lemma_url_map_update(prefix, i, v);
        assert(updated.drop_last() =~= prefix.update(i, (prefix[i].0, v)));
        assert(entries.last().0@ != entries[i].0@);
        assert(url_map(updated) =~= url_map(entries).insert(entries[i].0@, v));
    }
}

/// Appending an entry whose url is new keeps the urls unique.
pub proof fn lemma_push_new_url<V>(entries: Seq<(String, V)>, key: String, v: V)
    requires
        unique_urls(entries),
        forall|i: int| 0 <= i < entries.len() ==> entries[i].0@ != key@,
    ensures
        unique_urls(entries.push((key, v))),
        url_map(entries.push((key, v))) == url_map(entries).insert(key@, v),
{
    let pushed = entries.push((key, v));
    assert(pushed.drop_last() =~= entries);
    assert forall|i: int, j: int|
        0 <= i < pushed.len() && 0 <= j < pushed.len() && i != j implies pushed[i].0@
        != pushed[j].0@ by {
        if i < entries.len() && j < entries.len() {
            assert(pushed[i] == entries[i] && pushed[j] == entries[j]);
        } else if i < entries.len() {
            assert(pushed[i] == entries[i]);
        } else {
            assert(pushed[j] == entries[j]);
        }
    }
}

/// The index of the entry for `url`, if any.
pub fn find_url<V>(entries: &Vec<(String, V)>, url: &String) -> (r: Option<usize>)
    ensures
        match r {
            Some(i) => i < entries@.len() && entries@[i as int].0@ == url@,
            None => forall|i: int| 0 <= i < entries@.len() ==> entries@[i].0@ != url@,
        },
{
    let n = entries.len();
    for i in 0..n
        invariant
            n == entries.len(),
            forall|j: int| 0 <= j < i ==> entries@[j].0@ != url@,
    {
        if entries[i].0 == *url {
            return Some(i);
        }
    }
    None
}

} // verus!
