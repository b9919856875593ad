//! A JSON document as far as the token search reads it, and the search for
//! the first text property with a given name.
use vstd::prelude::*;

verus! {

/// A JSON value. Objects keep their members in the order in which the
/// document's map walks them; numbers, booleans and null are all `Other`.
pub enum JsonValue {
    Object(Vec<(String, JsonValue)>),
    Array(Vec<JsonValue>),
    Text(String),
    Other,
}

/// Every member of every object in `v`, in document order: each member comes
/// before the members nested in its value, and those before its next sibling.
pub open spec fn property_list(v: JsonValue) -> Seq<(Seq<char>, JsonValue)>
    decreases v,
{
    match v {
        JsonValue::Object(entries) => member_list(entries@),
        JsonValue::Array(items) => item_list(items@),
        _ => Seq::empty(),
    }
}

/// The members of an object's entries and of everything nested in them.
pub open spec fn member_list(entries: Seq<(String, JsonValue)>) -> Seq<(Seq<char>, JsonValue)>
    decreases entries,
{
    if entries.len() == 0 {
        Seq::empty()
    } else {
        let last = entries.last();
        member_list(entries.drop_last()) + seq![(last.0@, last.1)] + property_list(last.1)
    }
}

/// The members nested in the items of an array.
pub open spec fn item_list(items: Seq<JsonValue>) -> Seq<(Seq<char>, JsonValue)>
    decreases items,
{
    if items.len() == 0 {
        Seq::empty()
    } else {
        item_list(items.drop_last()) + property_list(items.last())
    }
}

/// The member is named `name` and holds a string.
pub open spec fn is_text_member(p: (Seq<char>, JsonValue), name: Seq<char>) -> bool {
    p.0 == name && p.1 is Text
}

pub open spec fn text_of(v: JsonValue) -> Seq<char> {
    match v {
        JsonValue::Text(s) => s@,
        _ => Seq::empty(),
    }
}

/// `i` is the first position of `ps` that holds a text member named `name`.
pub open spec fn is_first_text_member(
    ps: Seq<(Seq<char>, JsonValue)>,
    name: Seq<char>,
    i: int,
) -> bool {
    &&& 0 <= i < ps.len()
    &&& is_text_member(ps[i], name)
    &&& forall|j: int| 0 <= j < i ==> !is_text_member(#[trigger] ps[j], name)
}

/// `ps` holds no text member named `name`.
pub open spec fn no_text_member(ps: Seq<(Seq<char>, JsonValue)>, name: Seq<char>) -> bool {
    forall|j: int| 0 <= j < ps.len() ==> !is_text_member(#[trigger] ps[j], name)
}

/// The string held by the first member named `name` that holds a string, in
/// document order, anywhere in `v`.
pub open spec fn first_text_property(v: JsonValue, name: Seq<char>) -> Option<Seq<char>> {
    let ps = property_list(v);
    if exists|i: int| is_first_text_member(ps, name, i) {
        let i = choose|i: int| is_first_text_member(ps, name, i);
        Some(text_of(ps[i].1))
    } else {
        None
    }
}

/// The first position of a text member is unique.
proof fn lemma_first_text_member_unique(
    ps: Seq<(Seq<char>, JsonValue)>,
    name: Seq<char>,
    i: int,
    j: int,
)
    requires
        is_first_text_member(ps, name, i),
        is_first_text_member(ps, name, j),
    ensures
        i == j,
{
    if i < j {
        assert(!is_text_member(ps[i], name));
    }
    if j < i {
        assert(!is_text_member(ps[j], name));
    }
}

/// A search result over `ps`: the text of its first text member named `name`.
pub open spec fn search_result(ps: Seq<(Seq<char>, JsonValue)>, name: Seq<char>, r: Option<String>) -> bool {
    match r {
        Some(s) => exists|i: int| is_first_text_member(ps, name, i) && s@ == text_of(ps[i].1),
        None => no_text_member(ps, name),
    }
}

/// Searching `a + b`: a hit in `a` is the answer; otherwise the answer is the
/// search of `b`.
proof fn lemma_search_concat(
    a: Seq<(Seq<char>, JsonValue)>,
    b: Seq<(Seq<char>, JsonValue)>,
    name: Seq<char>,
    r: Option<String>,
)
    requires
        no_text_member(a, name),
        search_result(b, name, r),
    ensures
        search_result(a + b, name, r),
{
    let ab = a + b;
    match r {
        Some(s) => {
            let i = choose|i: int| is_first_text_member(b, name, i) && s@ == text_of(b[i].1);
            assert(ab[a.len() + i] == b[i]);
            assert forall|j: int| 0 <= j < a.len() + i implies !is_text_member(#[trigger] ab[j], name) by {
                if j < a.len() {
                    assert(ab[j] == a[j]);
                } else {
                    assert(ab[j] == b[j - a.len()]);
                }
            }
            assert(is_first_text_member(ab, name, a.len() + i));
        },
        None => {
            assert forall|j: int| 0 <= j < ab.len() implies !is_text_member(#[trigger] ab[j], name) by {
                if j < a.len() {
                    assert(ab[j] == a[j]);
                } else {
                    assert(ab[j] == b[j - a.len()]);
                }
            }
        },
    }
}

/// A hit in `a` stays the first hit in `a + b`.
proof fn lemma_search_prefix_hit(
    a: Seq<(Seq<char>, JsonValue)>,
    b: Seq<(Seq<char>, JsonValue)>,
    name: Seq<char>,
    r: Option<String>,
)
    requires
        r is Some,
        search_result(a, name, r),
    ensures
        search_result(a + b, name, r),
{
    let s = r.unwrap();
    let ab = a + b;
    let i = choose|i: int| is_first_text_member(a, name, i) && s@ == text_of(a[i].1);
    assert(ab[i] == a[i]);
    assert forall|j: int| 0 <= j < i implies !is_text_member(#[trigger] ab[j], name) by {
        assert(ab[j] == a[j]);
    }
    assert(is_first_text_member(ab, name, i));
}

/// The first text member named `name` in `value`, in document order.
fn find_in(value: &JsonValue, name: &String) -> (r: Option<String>)
    ensures
        search_result(property_list(*value), name@, r),
    decreases value,
{
    match value {
        JsonValue::Object(entries) => {
            let mut i: usize = 0;
            while i < entries.len()
                invariant
                    0 <= i <= entries@.len(),
                    *value == JsonValue::Object(*entries),
                    no_text_member(member_list(entries@.take(i as int)), name@),
                decreases entries@.len() - i,
            {
                let ghost before = member_list(entries@.take(i as int));
                let entry = &entries[i];
                proof {
                    assert(entries@.take(i + 1).drop_last() =~= entries@.take(i as int));
                    assert(entries@.take(i + 1).last() == entries@[i as int]);
                }
                let ghost here = seq![(entry.0@, entry.1)];
                if entry.0 == *name {
                    if let JsonValue::Text(text) = &entry.1 {
                        let found = text.clone();
                        proof {
                            let r = Some(found);
                            let ps = before + here;
                            assert(ps[before.len() as int] == (entry.0@, entry.1));
                            assert forall|j: int| 0 <= j < before.len() implies !is_text_member(
                                #[trigger] ps[j],
                                name@,
                            ) by {
                                assert(ps[j] == before[j]);
                            }
                            assert(is_first_text_member(ps, name@, before.len() as int));
                            assert(search_result(ps, name@, r));
                            lemma_search_prefix_hit(ps, property_list(entry.1), name@, r);
                            assert(member_list(entries@.take(i + 1)) == ps + property_list(
                                entry.1,
                            ));
                            lemma_search_prefix_hit(
                                member_list(entries@.take(i + 1)),
                                member_list(entries@.skip(i + 1)),
                                name@,
                                r,
                            );
                            lemma_member_list_split(entries@, i + 1);
                        }
                        return Some(found);
                    }
                }
                assert(!is_text_member((entry.0@, entry.1), name@));
                proof {
                    assert(no_text_member(here, name@));
                    lemma_search_concat(before, here, name@, None);
                }
                proof {
                    assert(decreases_to!(*value => (*value)->Object_0));
                    assert(decreases_to!(*entries => entries@));
                    assert(decreases_to!(entries@ => entries@[i as int]));
                    assert(decreases_to!(entries@[i as int] => entries@[i as int].1));
                }
                let nested = find_in(&entry.1, name);
                proof {
                    lemma_search_concat(before + here, property_list(entry.1), name@, nested);
                    assert(member_list(entries@.take(i + 1)) == before + here + property_list(
                        entry.1,
                    ));
                }
                if nested.is_some() {
                    proof {
                        lemma_search_prefix_hit(
                            member_list(entries@.take(i + 1)),
                            member_list(entries@.skip(i + 1)),
                            name@,
                            nested,
                        );
                        lemma_member_list_split(entries@, i + 1);
                    }
                    return nested;
                }
                i = i + 1;
            }
            assert(entries@.take(entries@.len() as int) =~= entries@);
            None
        },
        JsonValue::Array(items) => {
            let mut i: usize = 0;
            while i < items.len()
                invariant
                    0 <= i <= items@.len(),
                    *value == JsonValue::Array(*items),
                    no_text_member(item_list(items@.take(i as int)), name@),
                decreases items@.len() - i,
            {
                let item = &items[i];
                proof {
                    assert(items@.take(i + 1).drop_last() =~= items@.take(i as int));
                    assert(items@.take(i + 1).last() == items@[i as int]);
                }
                proof {
                    assert(decreases_to!(*value => (*value)->Array_0));
                    assert(decreases_to!(*items => items@));
                    assert(decreases_to!(items@ => items@[i as int]));
                }
                let nested = find_in(item, name);
                proof {
                    lemma_search_concat(
                        item_list(items@.take(i as int)),
                        property_list(*item),
                        name@,
                        nested,
                    );
                }
                if nested.is_some() {
                    proof {
                        lemma_search_prefix_hit(
                            item_list(items@.take(i + 1)),
                            item_list(items@.skip(i + 1)),
                            name@,
                            nested,
                        );
                        lemma_item_list_split(items@, i + 1);
                    }
                    return nested;
                }
                i = i + 1;
            }
            assert(items@.take(items@.len() as int) =~= items@);
            None
        },
        _ => None,
    }
}

/// The member list of entries splits at any point.
proof fn lemma_member_list_split(entries: Seq<(String, JsonValue)>, k: int)
    requires
        0 <= k <= entries.len(),
    ensures
        member_list(entries) == member_list(entries.take(k)) + member_list(entries.skip(k)),
    decreases entries.len(),
{
    if k == entries.len() {
        assert(entries.take(k) =~= entries);
        assert(entries.skip(k) =~= Seq::<(String, JsonValue)>::empty());
        assert(member_list(entries.skip(k)) =~= Seq::empty());
        assert(member_list(entries) + Seq::empty() =~= member_list(entries));
    } else {
        let init = entries.drop_last();
        lemma_member_list_split(init, k);
        assert(init.take(k) =~= entries.take(k));
        assert(entries.skip(k).drop_last() =~= init.skip(k));
        assert(entries.skip(k).last() == entries.last());
        let last = entries.last();
        let tail = seq![(last.0@, last.1)] + property_list(last.1);
        assert(member_list(entries) == member_list(init) + tail);
        assert(member_list(entries.skip(k)) == member_list(init.skip(k)) + tail);
        assert(member_list(init) + tail =~= member_list(init.take(k)) + (member_list(init.skip(k))
            + tail));
    }
}

/// The item list of an array splits at any point.
proof fn lemma_item_list_split(items: Seq<JsonValue>, k: int)
    requires
        0 <= k <= items.len(),
    ensures
        item_list(items) == item_list(items.take(k)) + item_list(items.skip(k)),
    decreases items.len(),
{
    if k == items.len() {
        assert(items.take(k) =~= items);
        assert(items.skip(k) =~= Seq::<JsonValue>::empty());
        assert(item_list(items.skip(k)) =~= Seq::empty());
        assert(item_list(items) + Seq::empty() =~= item_list(items));
    } else {
        let init = items.drop_last();
        lemma_item_list_split(init, k);
        assert(init.take(k) =~= items.take(k));
        assert(items.skip(k).drop_last() =~= init.skip(k));
        assert(items.skip(k).last() == items.last());
        let tail = property_list(items.last());
        assert(item_list(init) + tail =~= item_list(init.take(k)) + (item_list(init.skip(k))
            + tail));
    }
}

/// The string held by the first member named `name`, in document order,
/// whose value is a string; members are visited before what they contain.
pub fn find_string_property(value: &JsonValue, name: &str) -> (r: Option<String>)
    ensures
        match r {
            Some(s) => first_text_property(*value, name@) == Some(s@),
            None => first_text_property(*value, name@) is None,
        },
{
    let owned = String::from_str(name);
    let r = find_in(value, &owned);
    proof {
        let ps = property_list(*value);
        match &r {
            Some(s) => {
                let i = choose|i: int| is_first_text_member(ps, name@, i) && s@ == text_of(ps[i].1);
                let c = choose|i: int| is_first_text_member(ps, name@, i);
                lemma_first_text_member_unique(ps, name@, i, c);
            },
            None => {
                if exists|i: int| is_first_text_member(ps, name@, i) {
                    let c = choose|i: int| is_first_text_member(ps, name@, i);
                    assert(!is_text_member(ps[c], name@));
                }
            },
        }
    }
    r
}

/// A found token is the text of a member with that name somewhere in the
/// document, and nothing is found only where no member with that name holds
/// a string.
pub proof fn law_found_property_exists(value: JsonValue, name: Seq<char>)
    ensures
        first_text_property(value, name) is None <==> no_text_member(property_list(value), name),
        first_text_property(value, name) matches Some(s) ==> exists|i: int|
            0 <= i < property_list(value).len() && is_text_member(
                #[trigger] property_list(value)[i],
                name,
            ) && text_of(property_list(value)[i].1) == s,
{
    let ps = property_list(value);
    if no_text_member(ps, name) {
        if exists|i: int| is_first_text_member(ps, name, i) {
            let c = choose|i: int| is_first_text_member(ps, name, i);
            assert(!is_text_member(ps[c], name));
        }
    } else {
        let j = choose|j: int| 0 <= j < ps.len() && is_text_member(ps[j], name);
        lemma_least_text_member(ps, name, j);
    }
}

/// Where some position holds a text member, a first one exists.
proof fn lemma_least_text_member(ps: Seq<(Seq<char>, JsonValue)>, name: Seq<char>, j: int)
    requires
        0 <= j < ps.len(),
        is_text_member(ps[j], name),
    ensures
        exists|i: int| is_first_text_member(ps, name, i),
    decreases j,
{
    if exists|k: int| 0 <= k < j && is_text_member(ps[k], name) {
        let k = choose|k: int| 0 <= k < j && is_text_member(ps[k], name);
        lemma_least_text_member(ps, name, k);
    } else {
        assert(is_first_text_member(ps, name, j));
    }
}

} // verus!
