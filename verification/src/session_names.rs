//! The names that the user gave to sessions.

use crate::json::{
    fields_view, lemma_fields_push, lemma_fields_push_taken, lemma_first_field, lemma_no_field,
    parse, parsed_text, plain, pretty, pretty_text, raw_key, Json, JsonView, DEPTH_LIMIT,
};
use crate::settings::{join_path, lemma_brace_is_no_bom, path_in, strip_bom, without_bom, Platform};
use crate::text::{lemma_trimmed_twice, optional_str, optional_text, same_text, trim, trimmed};
use vstd::prelude::*;
use vstd::string::*;

verus! {

/// The file of names in `dir`.
pub fn session_names_path(platform: Platform, dir: &str) -> (out: String)
    ensures
        out@ == path_in(platform, dir@, "session-names.json"@),
{
    join_path(platform, dir, "session-names.json")
}

/// Names by session; the first entry of a session counts.
pub open spec fn names_view(names: Seq<(String, String)>) -> Map<Seq<char>, Seq<char>>
    decreases names.len(),
{
    if names.len() == 0 {
        Map::empty()
    } else {
        names_view(names.subrange(1, names.len() as int)).insert(names[0].0@, names[0].1@)
    }
}

/// The name that a value stands for: a string, trimmed, of which something is
/// left.
pub open spec fn name_in(value: JsonView) -> Option<Seq<char>> {
    match value.text() {
        Some(s) => if trimmed(s).len() == 0 {
            None
        } else {
            Some(trimmed(s))
        },
        None => None,
    }
}

/// The names among `fields`; a value that stands for no name takes nothing else
/// with it.
pub open spec fn names_among(fields: Map<Seq<char>, JsonView>) -> Map<Seq<char>, Seq<char>> {
    fields.dom().filter(|k: Seq<char>| name_in(fields[k]) is Some).mk_map(
        |k: Seq<char>| name_in(fields[k])->Some_0,
    )
}

/// The names in a document that was read, or in none.
pub open spec fn names_from(document: Option<JsonView>) -> Map<Seq<char>, Seq<char>> {
    match document {
        Some(JsonView::Object(fields)) => names_among(fields),
        _ => Map::empty(),
    }
}

/// The names in the text of a file, or in no file.
pub open spec fn loaded_names(text: Option<Seq<char>>) -> Map<Seq<char>, Seq<char>> {
    match text {
        Some(t) => names_from(parsed_text(without_bom(t))),
        None => Map::empty(),
    }
}

proof fn lemma_names_push(names: Seq<(String, String)>, id: String, name: String)
    requires
        !names_view(names).dom().contains(id@),
    ensures
        names_view(names.push((id, name))) == names_view(names).insert(id@, name@),
    decreases names.len(),
{
    let longer = names.push((id, name));
    if names.len() == 0 {
        assert(longer.subrange(1, longer.len() as int) =~= Seq::empty());
        assert(names_view(longer.subrange(1, longer.len() as int)) == Map::<
            Seq<char>,
            Seq<char>,
        >::empty());
    } else {
        let rest = names.subrange(1, names.len() as int);
        assert(longer.subrange(1, longer.len() as int) =~= rest.push((id, name)));
        lemma_names_push(rest, id, name);
        assert(names_view(longer) =~= names_view(names).insert(id@, name@));
    }
}

fn name_in_of(value: &Json) -> (out: Option<String>)
    ensures
        optional_text(out) == name_in(value@),
{
    match value.as_str() {
        Some(s) => {
            let name = trim(s);
            if name.as_str().is_empty() {
                None
            } else {
                Some(name)
            }
        },
        None => None,
    }
}

/// Whether one of the first `n` fields has this name.
fn named_before(fields: &Vec<(String, Json)>, n: usize, name: &str) -> (out: bool)
    requires
        n <= fields@.len(),
    ensures
        out == fields_view(fields@.take(n as int)).dom().contains(name@),
{
    let ghost first = fields@.take(n as int);
    let mut i: usize = 0;
    while i < n
        invariant
            i <= n <= fields@.len(),
            first == fields@.take(n as int),
            forall|j: int| 0 <= j < i ==> (#[trigger] first[j]).0@ != name@,
        decreases n - i,
    {
        proof {
            assert(first[i as int] == fields@[i as int]);
        }
        if same_text(fields[i].0.as_str(), name) {
            proof {
                lemma_first_field(first, name@, i as int);
            }
            return true;
        }
        i = i + 1;
    }
    proof {
        lemma_no_field(first, name@);
    }
    false
}

fn names_among_of(fields: &Vec<(String, Json)>) -> (out: Vec<(String, String)>)
    ensures
        names_view(out@) == names_among(fields_view(fields@)),
{
    let mut out: Vec<(String, String)> = Vec::new();
    let mut i: usize = 0;
    proof {
        assert(fields@.take(0) =~= Seq::empty());
        assert(names_view(out@) =~= names_among(fields_view(fields@.take(0))));
    }
    while i < fields.len()
        invariant
            i <= fields@.len(),
            names_view(out@) == names_among(fields_view(fields@.take(i as int))),
        decreases fields.len() - i,
    {
        let ghost seen = fields_view(fields@.take(i as int));
        let ghost id = fields@[i as int].0;
        let ghost value = fields@[i as int].1;
        proof {
            assert(fields@.take(i + 1) =~= fields@.take(i as int).push((id, value)));
            if seen.dom().contains(id@) {
                lemma_fields_push_taken(fields@.take(i as int), id, value);
            } else {
                lemma_fields_push(fields@.take(i as int), id, value);
            }
        }
        if !named_before(fields, i, fields[i].0.as_str()) {
            match name_in_of(&fields[i].1) {
                Some(name) => {
                    let owned = fields[i].0.clone();
                    proof {
                        lemma_names_push(out@, owned, name);
                        assert(names_among(seen.insert(id@, value@)) =~= names_among(seen).insert(
                            id@,
                            name@,
                        ));
                    }
                    out.push((owned, name));
                },
                None => {
                    proof {
                        assert(names_among(seen.insert(id@, value@)) =~= names_among(seen));
                    }
                },
            }
        }
        i = i + 1;
    }
    proof {
        assert(fields@.take(fields@.len() as int) =~= fields@);
    }
    out
}

/// The names in a document that was read, or in none.
pub fn from_document(document: Option<Json>) -> (out: Vec<(String, String)>)
    ensures
        names_view(out@) == names_from(
            match document {
                Some(d) => Some(d@),
                None => None,
            },
        ),
{
    match document {
        Some(Json::Object(fields)) => names_among_of(&fields),
        _ => Vec::new(),
    }
}

/// The names in the text of the file of names, or in no file: none where it
/// cannot be read.
pub fn load(text: Option<&str>) -> (out: Vec<(String, String)>)
    ensures
        names_view(out@) == loaded_names(
            optional_str(text),
        ),
{
    match text {
        Some(t) => from_document(parse(strip_bom(t).as_str())),
        None => Vec::new(),
    }
}

/// The names as a document.
pub open spec fn names_document(names: Map<Seq<char>, Seq<char>>) -> JsonView {
    JsonView::Object(names.map_values(|name: Seq<char>| JsonView::Str(name)))
}

/// Whether every name is what it would be read as: trimmed, and not empty.
pub open spec fn tidy(names: Map<Seq<char>, Seq<char>>) -> bool {
    forall|id: Seq<char>| #[trigger]
        names.dom().contains(id) ==> names[id].len() > 0 && trimmed(names[id]) == names[id]
}

/// Tidy names that are written down as a document are the names that the
/// document holds.
pub proof fn law_document_holds_names(names: Map<Seq<char>, Seq<char>>)
    requires
        tidy(names),
    ensures
        names_from(Some(names_document(names))) == names,
{
    assert(names_from(Some(names_document(names))) =~= names);
}

/// The names that are read from anything are tidy.
pub proof fn law_loaded_names_are_tidy(text: Option<Seq<char>>)
    ensures
        tidy(loaded_names(text)),
{
    let names = loaded_names(text);
    assert forall|id: Seq<char>| #[trigger] names.dom().contains(id) implies names[id].len() > 0
        && trimmed(names[id]) == names[id] by {
        let fields = parsed_text(without_bom(text->Some_0))->Some_0->Object_0;
        lemma_trimmed_twice(fields[id].text()->Some_0);
    }
}

fn to_document(names: &Vec<(String, String)>) -> (out: Json)
    ensures
        out@ == names_document(names_view(names@)),
{
    let mut fields: Vec<(String, Json)> = Vec::new();
    let mut i: usize = 0;
    while i < names.len()
        invariant
            i <= names@.len(),
            fields@.len() == i,
            forall|j: int|
                0 <= j < i ==> (#[trigger] fields@[j]).0@ == names@[j].0@ && fields@[j].1@
                    == JsonView::Str(names@[j].1@),
        decreases names.len() - i,
    {
        fields.push((names[i].0.clone(), Json::Str(names[i].1.clone())));
        i = i + 1;
    }
    proof {
        lemma_names_as_fields(names@, fields@);
    }
    Json::Object(fields)
}

proof fn lemma_names_as_fields(names: Seq<(String, String)>, fields: Seq<(String, Json)>)
    requires
        names.len() == fields.len(),
        forall|j: int|
            0 <= j < names.len() ==> (#[trigger] fields[j]).0@ == names[j].0@ && fields[j].1@
                == JsonView::Str(names[j].1@),
    ensures
        JsonView::Object(fields_view(fields)) == names_document(names_view(names)),
    decreases names.len(),
{
    let shown = names_view(names).map_values(|name: Seq<char>| JsonView::Str(name));
    if names.len() > 0 {
        let rest = names.subrange(1, names.len() as int);
        let rest_fields = fields.subrange(1, fields.len() as int);
        assert forall|j: int| 0 <= j < rest.len() implies (#[trigger] rest_fields[j]).0@
            == rest[j].0@ && rest_fields[j].1@ == JsonView::Str(rest[j].1@) by {
            assert(rest_fields[j] == fields[j + 1]);
        }
        lemma_names_as_fields(rest, rest_fields);
        assert(fields[0].0@ == names[0].0@);
        assert(fields_view(fields) =~= shown);
    } else {
        assert(fields_view(fields) =~= shown);
    }
}

/// The text of the file of names. Loading it gives the same names back, where
/// they are tidy and no session is called as raw texts are.
pub fn save(names: &Vec<(String, String)>) -> (out: String)
    ensures
        out@ == pretty_text(names_document(names_view(names@))),
        tidy(names_view(names@)) && !names_view(names@).dom().contains(raw_key())
            ==> loaded_names(Some(out@)) == names_view(names@),
{
    let document = to_document(names);
    let out = pretty(&document);
    proof {
        lemma_brace_is_no_bom(out@);
        assert forall|id: Seq<char>| document@->Object_0.dom().contains(id) implies plain(
            #[trigger] document@->Object_0[id],
            (DEPTH_LIMIT - 1) as nat,
        ) by {
            assert(document@->Object_0[id] is Str);
        }
        if tidy(names_view(names@)) {
            law_document_holds_names(names_view(names@));
        }
    }
    out
}

/// The name that a session gets when the user renames it: trimmed, and none
/// where nothing is left.
pub fn rename_session(name: &str) -> (out: Option<String>)
    ensures
        optional_text(out) == name_in(JsonView::Str(name@)),
{
    let name = trim(name);
    if name.as_str().is_empty() {
        None
    } else {
        Some(name)
    }
}

} // verus!
