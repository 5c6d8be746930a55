//! What reading and writing documents, and the table keyed by text, promise.

use vstd::prelude::*;

use crate::json::{
    entries_view, items_view, parsed, put, string_array, survives_print, Json, JsonEntry, JsonView,
};
use crate::keyed::Keyed;
use crate::text::{cat, cat3, has_prefix, has_suffix, is_white, opt_is, same_opt, white};

verus! {

/// Only an object has members, and what it has under a key is found there.
pub proof fn law_members_of_a_document(v: JsonView, key: Seq<char>)
    ensures
        v.get(key) is Some == (v is Obj && v->Obj_0.dom().contains(key)),
        v.get(key) is Some ==> v.get(key)->0 == v->Obj_0[key] && v.at(key) == v->Obj_0[key],
        v.get(key) is None ==> v.at(key) == JsonView::Null,
        v.str_at(key) is Some == (v.get(key) is Some && v.get(key)->0 is Str),
        v.str_at(key) is Some ==> JsonView::Str(v.str_at(key)->0) == v.get(key)->0,
{
}

/// What is read off a document is what it is, and nothing is made of another kind.
pub proof fn law_reading_off_a_document(
    v: &Json,
    s: Option<&str>,
    b: Option<bool>,
    u: Option<u64>,
    i: Option<i64>,
)
    requires
        call_ensures(Json::as_str, (v,), s),
        call_ensures(Json::as_bool, (v,), b),
        call_ensures(Json::as_u64, (v,), u),
        call_ensures(Json::as_i64, (v,), i),
    ensures
        s is Some == v@ is Str,
        s is Some ==> JsonView::Str(s->0@) == v@,
        b is Some == v@ is Bool,
        b is Some ==> JsonView::Bool(b->0) == v@,
        u is Some == (v@ is Int && 0 <= v@->Int_0 <= u64::MAX),
        u is Some ==> u->0 as int == v@->Int_0,
        i is Some == (v@ is Int && i64::MIN <= v@->Int_0 <= i64::MAX),
        i is Some ==> i->0 as int == v@->Int_0,
{
}

/// A member is read off in one step as in two.
pub proof fn law_reading_off_a_member(
    v: &Json,
    key: &str,
    inner: &str,
    g: Option<&Json>,
    s: Option<&str>,
    g2: Option<&Json>,
    s2: Option<&str>,
    a: Option<&Vec<Json>>,
)
    requires
        call_ensures(Json::get, (v, key), g),
        call_ensures(Json::str_at, (v, key), s),
        call_ensures(Json::get2, (v, key, inner), g2),
        call_ensures(Json::str_at2, (v, key, inner), s2),
        call_ensures(Json::arr_at, (v, key), a),
    ensures
        g is Some == v@.get(key@) is Some,
        g is Some ==> g->0@ == v@.get(key@)->0,
        s is Some == (g is Some && g->0@ is Str),
        s is Some ==> JsonView::Str(s->0@) == g->0@,
        g2 is Some == (g is Some && g->0@.get(inner@) is Some),
        g2 is Some ==> g2->0@ == g->0@.get(inner@)->0,
        s2 is Some == (g2 is Some && g2->0@ is Str),
        s2 is Some ==> JsonView::Str(s2->0@) == g2->0@,
        a is Some == (g is Some && g->0@ is Arr),
        a is Some ==> JsonView::Arr(items_view(a->0@)) == g->0@,
{
}

/// The items of a list are the documents at the same places.
pub proof fn law_items_of_a_list(v: &Json, a: Option<&Vec<Json>>, i: int)
    requires
        call_ensures(Json::as_arr, (v,), a),
    ensures
        a is Some == v@ is Arr,
        a is Some ==> v@->Arr_0.len() == a->0@.len(),
        a is Some && 0 <= i < a->0@.len() ==> v@->Arr_0[i] == a->0@[i]@,
{
    if a is Some {
        crate::json::lemma_items_view(a->0@);
    }
}

/// A member that is entered is there, and the others stay; what is entered again counts.
pub proof fn law_entered_member_is_there(
    before: Vec<JsonEntry>,
    key: &str,
    value: Json,
    after: Vec<JsonEntry>,
    other: Seq<char>,
)
    requires
        exists|m: &mut Vec<JsonEntry>|
            *m == before && *final(m) == after && #[trigger] call_ensures(put, (m, key, value), ()),
    ensures
        JsonView::Obj(entries_view(after@)).get(key@) == Some(value@),
        other != key@ ==> JsonView::Obj(entries_view(after@)).get(other) == JsonView::Obj(
            entries_view(before@),
        ).get(other),
{
}

/// A document without a float or a reserved key, and not too deep, reads back as it was
/// written; and the same document is always written alike.
pub proof fn law_documents_read_back(
    v: &Json,
    w: &Json,
    text: String,
    again: String,
    given: &str,
    r: Option<Json>,
)
    requires
        call_ensures(Json::print, (v,), text),
        call_ensures(Json::print, (w,), again),
        given@ == text@,
        call_ensures(Json::parse, (given,), r),
    ensures
        survives_print(v@, 127) ==> r is Some && r->0@ == v@,
        v@ == w@ ==> text@ == again@,
        r is Some == parsed(text@) is Some,
{
}

/// A copy is the document, and a list of texts is the list of their documents.
pub proof fn law_copies_and_text_lists(v: &Json, c: Json, texts: Vec<String>, a: Json, i: int)
    requires
        call_ensures(Json::copy, (v,), c),
        call_ensures(string_array, (&texts,), a),
    ensures
        c@ == v@,
        a@ is Arr && a@->Arr_0.len() == texts@.len(),
        0 <= i < texts@.len() ==> a@->Arr_0[i] == JsonView::Str(texts@[i]@),
{
}

/// What is entered into the table is found under its key until it is taken out, once; the
/// other entries are not touched.
pub proof fn law_table_keeps_its_entries(
    before: Keyed<u64>,
    key: String,
    given: &str,
    value: u64,
    held: Keyed<u64>,
    found: Option<&u64>,
    taken: Option<u64>,
    left: Keyed<u64>,
    again: Option<u64>,
    after: Keyed<u64>,
    other: Seq<char>,
)
    requires
        before.wf() && held.wf() && left.wf(),
        given@ == key@,
        exists|m: &mut Keyed<u64>|
            *m == before && *final(m) == held && #[trigger] call_ensures(
                Keyed::<u64>::insert,
                (m, key, value),
                (),
            ),
        call_ensures(Keyed::<u64>::get, (&held, given), found),
        exists|m: &mut Keyed<u64>|
            *m == held && *final(m) == left && #[trigger] call_ensures(
                Keyed::<u64>::remove,
                (m, given),
                taken,
            ),
        exists|m: &mut Keyed<u64>|
            *m == left && *final(m) == after && #[trigger] call_ensures(
                Keyed::<u64>::remove,
                (m, given),
                again,
            ),
    ensures
        found is Some && *found->0 == value,
        taken == Some(value),
        again is None,
        other != key@ ==> after@.dom().contains(other) == before@.dom().contains(other),
        other != key@ && before@.dom().contains(other) ==> after@[other] == before@[other],
{
}

/// The beginning and the end of a text are found there.
pub proof fn law_beginnings_and_ends(s: &str, part: &str, starts: bool, ends: bool, rest: Seq<char>)
    requires
        call_ensures(has_prefix, (s, part), starts),
        call_ensures(has_suffix, (s, part), ends),
    ensures
        s@ == part@ + rest ==> starts,
        s@ == rest + part@ ==> ends,
        starts ==> s@ == part@ + s@.skip(part@.len() as int),
        ends ==> s@ == s@.take(s@.len() - part@.len()) + part@,
{
    if s@ == part@ + rest {
        assert(s@.subrange(0, part@.len() as int) =~= part@);
    }
    if s@ == rest + part@ {
        assert(s@.subrange(s@.len() - part@.len(), s@.len() as int) =~= part@);
    }
    if starts {
        assert(s@ =~= part@ + s@.skip(part@.len() as int));
    }
    if ends {
        assert(s@ =~= s@.take(s@.len() - part@.len()) + part@);
    }
}

/// Texts are put together in order, nothing between them.
pub proof fn law_texts_are_put_together(a: &str, b: &str, c: &str, two: String, three: String)
    requires
        call_ensures(cat, (a, b), two),
        call_ensures(cat3, (a, b, c), three),
    ensures
        two@ == a@ + b@,
        three@ == two@ + c@,
{
}

/// Two optional texts are the same when both are missing or both are there and equal.
pub proof fn law_optional_texts(
    a: Option<&str>,
    b: Option<&str>,
    r: bool,
    text: &str,
    is: bool,
    c: char,
    w: bool,
)
    requires
        call_ensures(same_opt, (a, b), r),
        call_ensures(opt_is, (a, text), is),
        call_ensures(is_white, (c,), w),
    ensures
        r == ((a is None && b is None) || (a is Some && b is Some && a->0@ == b->0@)),
        is == (a is Some && a->0@ == text@),
        w == white(c),
{
}

/// A table that is drained hands out its entries in the order they came, and is empty
/// then, as a new one is.
pub proof fn law_drained_table_is_empty(
    before: Keyed<u64>,
    r: Vec<(String, u64)>,
    after: Keyed<u64>,
    new: Keyed<u64>,
    key: &str,
    has: bool,
)
    requires
        exists|m: &mut Keyed<u64>|
            *m == before && *final(m) == after && #[trigger] call_ensures(
                Keyed::<u64>::drain,
                (m,),
                r,
            ),
        call_ensures(Keyed::<u64>::new, (), new),
        call_ensures(Keyed::<u64>::contains_key, (&before, key), has),
    ensures
        r@ == before.entries@,
        after.entries@.len() == 0 && !after@.dom().contains(key@),
        new.entries@.len() == 0 && !new@.dom().contains(key@),
        has == before@.dom().contains(key@),
        has == exists|i: int| 0 <= i < before.entries@.len() && (#[trigger] before.entries@[i]).0@
            == key@,
{
    if has {
        let i = choose|i: int| crate::keyed::key_at(before.entries@, key@, i);
        assert(before.entries@[i].0@ == key@);
    }
    if exists|i: int| 0 <= i < before.entries@.len() && (#[trigger] before.entries@[i]).0@
        == key@ {
        let i = choose|i: int|
            0 <= i < before.entries@.len() && (#[trigger] before.entries@[i]).0@ == key@;
        assert(crate::keyed::key_at(before.entries@, key@, i));
    }
}

} // verus!
