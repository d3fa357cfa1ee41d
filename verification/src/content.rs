//! The specification template and its JSON form, as stored in a spec row.
use vstd::prelude::*;
use vstd::string::*;
use crate::json::{
    JsonTree, json_tree, parsed_json, float_free, trees, entry_trees, keys_distinct, entries_map, nested_at_most,
    json_text, json_null, json_array, json_object, json_parse, json_print, json_get, json_as_str,
    json_as_array, json_is_null, json_is_object, json_parse_prefix, json_skip_prefix, json_prefix,
    is_json_space, skip_json_space, lemma_skip_json_space_shorter, members_from, object_members, every_key,
};
use crate::text::text_eq;

verus! {

/// JSON template stored in `Spec.content` and serialized to SQLite TEXT.
#[derive(Debug, Clone)]
pub struct SpecContentTemplate {
    pub summary: String,
    pub goals: Vec<String>,
    pub requirements: Vec<String>,
    pub acceptance_criteria: Vec<String>,
    pub notes: Option<String>,
}

/// The text content of a template.
pub struct ContentView {
    pub summary: Seq<char>,
    pub goals: Seq<Seq<char>>,
    pub requirements: Seq<Seq<char>>,
    pub acceptance_criteria: Seq<Seq<char>>,
    pub notes: Option<Seq<char>>,
}

/// The texts of a sequence of strings.
pub open spec fn texts(v: Seq<String>) -> Seq<Seq<char>> {
    v.map_values(|s: String| s@)
}

/// The text of an optional string.
pub open spec fn opt_text(o: Option<String>) -> Option<Seq<char>> {
    match o {
        Some(s) => Some(s@),
        None => None,
    }
}

impl View for SpecContentTemplate {
    type V = ContentView;

    open spec fn view(&self) -> ContentView {
        ContentView {
            summary: self.summary@,
            goals: texts(self.goals@),
            requirements: texts(self.requirements@),
            acceptance_criteria: texts(self.acceptance_criteria@),
            notes: opt_text(self.notes),
        }
    }
}

/// The keys of the template's JSON object.
pub open spec fn key_summary() -> Seq<char> { "summary"@ }
pub open spec fn key_goals() -> Seq<char> { "goals"@ }
pub open spec fn key_requirements() -> Seq<char> { "requirements"@ }
pub open spec fn key_acceptance_criteria() -> Seq<char> { "acceptance_criteria"@ }
pub open spec fn key_notes() -> Seq<char> { "notes"@ }

/// A JSON array of strings.
pub open spec fn text_array_tree(items: Seq<Seq<char>>) -> JsonTree {
    JsonTree::Array(items.map_values(|s: Seq<char>| JsonTree::Text(s)))
}

/// The JSON document a template is stored as: an object with the five template fields,
/// `notes` being `null` when absent.
pub open spec fn content_tree(c: ContentView) -> JsonTree {
    JsonTree::Object(
        Map::empty()
            .insert(key_summary(), JsonTree::Text(c.summary))
            .insert(key_goals(), text_array_tree(c.goals))
            .insert(key_requirements(), text_array_tree(c.requirements))
            .insert(key_acceptance_criteria(), text_array_tree(c.acceptance_criteria))
            .insert(key_notes(), match c.notes {
                Some(n) => JsonTree::Text(n),
                None => JsonTree::Null,
            }),
    )
}

/// The strings of a JSON array whose items are all strings.
pub open spec fn text_array_of(t: JsonTree) -> Option<Seq<Seq<char>>> {
    match t {
        JsonTree::Array(items) => if forall|i: int| 0 <= i < items.len() ==> #[trigger] items[i] is Text {
            Some(items.map_values(|x: JsonTree| x->Text_0))
        } else {
            None
        },
        _ => None,
    }
}

/// Reading a required field of the template that must be a string array.
pub open spec fn required_text_array(m: Map<Seq<char>, JsonTree>, key: Seq<char>) -> Option<Seq<Seq<char>>> {
    if m.contains_key(key) { text_array_of(m[key]) } else { None }
}

/// The template an array of the five fields, in their order, describes: a string, three
/// arrays of strings, and a string or `null` for the notes.
pub open spec fn content_of_items(items: Seq<JsonTree>) -> Option<ContentView> {
    if items.len() == 5 && items[0] is Text && text_array_of(items[1]) is Some
        && text_array_of(items[2]) is Some && text_array_of(items[3]) is Some
        && (items[4] is Null || items[4] is Text) {
        Some(ContentView {
            summary: items[0]->Text_0,
            goals: text_array_of(items[1]).unwrap(),
            requirements: text_array_of(items[2]).unwrap(),
            acceptance_criteria: text_array_of(items[3]).unwrap(),
            notes: if items[4] is Text { Some(items[4]->Text_0) } else { None },
        })
    } else {
        None
    }
}

/// The template a JSON document describes. Either an object whose `summary` is a string,
/// whose `goals`, `requirements` and `acceptance_criteria` are arrays of strings, and
/// whose `notes`, if present, is a string or `null` (other keys are ignored); or an array
/// of exactly the five fields in that order.
pub open spec fn content_of_tree(t: JsonTree) -> Option<ContentView> {
    match t {
        JsonTree::Array(items) => content_of_items(items),
        JsonTree::Object(m) => {
            let goals = required_text_array(m, key_goals());
            let requirements = required_text_array(m, key_requirements());
            let criteria = required_text_array(m, key_acceptance_criteria());
            if m.contains_key(key_summary()) && m[key_summary()] is Text && goals is Some
                && requirements is Some && criteria is Some
                && (!m.contains_key(key_notes()) || m[key_notes()] is Null || m[key_notes()] is Text) {
                Some(ContentView {
                    summary: m[key_summary()]->Text_0,
                    goals: goals.unwrap(),
                    requirements: requirements.unwrap(),
                    acceptance_criteria: criteria.unwrap(),
                    notes: if m.contains_key(key_notes()) && m[key_notes()] is Text {
                        Some(m[key_notes()]->Text_0)
                    } else {
                        None
                    },
                })
            } else {
                None
            }
        },
        _ => None,
    }
}

/// One of the five keys of the template.
pub open spec fn is_template_key(k: Seq<char>) -> bool {
    k == key_summary() || k == key_goals() || k == key_requirements() || k == key_acceptance_criteria()
        || k == key_notes()
}

/// The keys of the template: the members read from stored content; any other member is
/// skipped unread, as the template's reader skips it.
pub open spec fn template_keys() -> spec_fn(Seq<char>) -> bool {
    |k: Seq<char>| is_template_key(k)
}

/// The template that stored JSON text describes, or `None` where it does not describe one.
/// An object is read member by member: each member of the template is read, any other
/// member is skipped, and a field given twice is refused; its fields then make the template
/// as `content_of_tree` says. Any other text must be a JSON array of the five fields.
pub open spec fn content_of_text(text: Seq<char>) -> Option<ContentView> {
    let t = skip_json_space(text);
    if t.len() > 0 && t[0] == '{' {
        match object_members(text, template_keys()) {
            Some(members) => if keys_distinct(members) {
                content_of_tree(JsonTree::Object(entries_map(members)))
            } else {
                None
            },
            None => None,
        }
    } else {
        match parsed_json(text) {
            Some(JsonTree::Array(items)) => content_of_items(items),
            _ => None,
        }
    }
}

/// Whether a character is JSON whitespace.
fn is_space_char(c: char) -> (r: bool)
    ensures
        r == is_json_space(c),
{
    c == ' ' || c == '\t' || c == '\n' || c == '\r'
}

/// The text without its leading JSON whitespace.
fn skip_space(t: &str) -> (r: String)
    ensures
        r@ == skip_json_space(t@),
{
    let n = t.unicode_len();
    let mut i: usize = 0;
    assert(t@.subrange(0, n as int) =~= t@);
    while i < n && is_space_char(t.get_char(i))
        invariant
            i <= n,
            n == t@.len(),
            skip_json_space(t@) == skip_json_space(t@.subrange(i as int, n as int)),
        decreases n - i,
    {
        assert(t@.subrange(i as int, n as int).drop_first() =~= t@.subrange(i as int + 1, n as int));
        i = i + 1;
    }
    proof {
        if i < n {
            assert(t@.subrange(i as int, n as int)[0] == t@[i as int]);
        }
    }
    String::from_str(t.substring_char(i, n))
}

/// Whether a text is one of the five keys of the template.
fn is_template_key_text(k: &str) -> (r: bool)
    ensures
        r == is_template_key(k@),
{
    text_eq(k, "summary") || text_eq(k, "goals") || text_eq(k, "requirements") || text_eq(k, "acceptance_criteria")
        || text_eq(k, "notes")
}

/// Reads the members of an object from the text after its `{`, as `members_from` reads
/// them for the template's keys, with the text after the closing `}`.
fn read_members(t: &str) -> (r: Option<(Vec<(String, serde_json::Value)>, String)>)
    ensures
        match members_from(t@, template_keys()) {
            Some((members, end)) => r matches Some((v, e)) && entry_trees(v@) == members && e@ == end,
            None => r is None,
        },
    decreases t@.len(),
{
    let (key, after_key) = match json_parse_prefix(t) {
        Some(p) => p,
        None => return None,
    };
    let k = match json_as_str(&key) {
        Some(s) => String::from_str(s),
        None => return None,
    };
    let at_colon = skip_space(after_key.as_str());
    let n = at_colon.as_str().unicode_len();
    if n == 0 || at_colon.as_str().get_char(0) != ':' {
        return None;
    }
    let value_text = at_colon.as_str().substring_char(1, n);
    proof {
        lemma_skip_json_space_shorter(after_key@);
        assert(value_text@ =~= at_colon@.drop_first());
    }
    let keep = is_template_key_text(k.as_str());
    assert((template_keys())(k@) == keep);
    let mut listed: Vec<(String, serde_json::Value)> = Vec::new();
    let ghost key_text = k@;
    let after_value: String = if keep {
        match json_parse_prefix(value_text) {
            Some((v, rest)) => {
                listed.push((k, v));
                assert(entry_trees(listed@) =~= seq![(key_text, json_tree(listed@[0].1))]);
                rest
            },
            None => return None,
        }
    } else {
        match json_skip_prefix(value_text) {
            Some(rest) => {
                assert(entry_trees(listed@) =~= Seq::<(Seq<char>, JsonTree)>::empty());
                rest
            },
            None => return None,
        }
    };
    let next = skip_space(after_value.as_str());
    let m = next.as_str().unicode_len();
    if m == 0 {
        return None;
    }
    let c = next.as_str().get_char(0);
    if c == ',' {
        let more_text = next.as_str().substring_char(1, m);
        proof {
            lemma_skip_json_space_shorter(after_value@);
            assert(more_text@ =~= next@.drop_first());
        }
        match read_members(more_text) {
            Some((more, end)) => {
                let ghost first = entry_trees(listed@);
                let mut more = more;
                let ghost more_trees = entry_trees(more@);
                listed.append(&mut more);
                assert(entry_trees(listed@) =~= first + more_trees);
                Some((listed, end))
            },
            None => None,
        }
    } else if c == '}' {
        let end = String::from_str(next.as_str().substring_char(1, m));
        assert(end@ =~= next@.drop_first());
        Some((listed, end))
    } else {
        None
    }
}

/// Reads the members of the object that stored text holds, as `object_members` reads them
/// for the template's keys.
fn read_object(text: &str) -> (r: Option<Vec<(String, serde_json::Value)>>)
    ensures
        match object_members(text@, template_keys()) {
            Some(members) => r matches Some(v) && entry_trees(v@) == members,
            None => r is None,
        },
{
    let t = skip_space(text);
    let n = t.as_str().unicode_len();
    if n == 0 || t.as_str().get_char(0) != '{' {
        return None;
    }
    let after_brace = t.as_str().substring_char(1, n);
    assert(after_brace@ =~= t@.drop_first());
    let inner = skip_space(after_brace);
    let m = inner.as_str().unicode_len();
    if m > 0 && inner.as_str().get_char(0) == '}' {
        let rest = inner.as_str().substring_char(1, m);
        assert(rest@ =~= inner@.drop_first());
        let tail = skip_space(rest);
        if tail.as_str().unicode_len() == 0 {
            let none: Vec<(String, serde_json::Value)> = Vec::new();
            assert(entry_trees(none@) =~= Seq::<(Seq<char>, JsonTree)>::empty());
            return Some(none);
        }
        return None;
    }
    match read_members(after_brace) {
        Some((members, end)) => {
            let tail = skip_space(end.as_str());
            if tail.as_str().unicode_len() == 0 {
                Some(members)
            } else {
                None
            }
        },
        None => None,
    }
}

/// Whether a key occurs twice among the members.
fn has_repeated_key(members: &Vec<(String, serde_json::Value)>) -> (r: bool)
    ensures
        r == !keys_distinct(entry_trees(members@)),
{
    let ghost es = entry_trees(members@);
    let mut i: usize = 0;
    while i < members.len()
        invariant
            i <= members.len(),
            es == entry_trees(members@),
            forall|a: int, b: int| 0 <= a < i && 0 <= b < es.len() && a != b ==> #[trigger] es[a].0 != #[trigger] es[b].0,
        decreases members.len() - i,
    {
        let mut j: usize = 0;
        while j < members.len()
            invariant
                i < members.len(),
                j <= members.len(),
                es == entry_trees(members@),
                forall|a: int, b: int| 0 <= a < i && 0 <= b < es.len() && a != b ==> #[trigger] es[a].0 != #[trigger] es[b].0,
                forall|b: int| 0 <= b < j && b != i ==> #[trigger] es[b].0 != es[i as int].0,
            decreases members.len() - j,
        {
            if j != i && text_eq(members[i].0.as_str(), members[j].0.as_str()) {
                assert(es[i as int].0 == es[j as int].0);
                return true;
            }
            j = j + 1;
        }
        i = i + 1;
    }
    false
}

fn text_array_value(items: &Vec<String>) -> (r: serde_json::Value)
    ensures
        json_tree(r) == text_array_tree(texts(items@)),
        float_free(json_tree(r)),
{
    let mut out: Vec<serde_json::Value> = Vec::new();
    let mut i: usize = 0;
    while i < items.len()
        invariant
            i <= items.len(),
            out@.len() == i,
            forall|j: int| 0 <= j < i ==> #[trigger] json_tree(out@[j]) == JsonTree::Text(items@[j]@),
        decreases items.len() - i,
    {
        let s = items[i].clone();
        out.push(json_text(s));
        i = i + 1;
    }
    proof {
        assert(trees(out@) =~= texts(items@).map_values(|s: Seq<char>| JsonTree::Text(s)));
        lemma_text_array_float_free(texts(items@));
    }
    json_array(out)
}

proof fn lemma_text_array_float_free(items: Seq<Seq<char>>)
    ensures
        float_free(text_array_tree(items)),
{
    let t = text_array_tree(items);
    let xs = items.map_values(|s: Seq<char>| JsonTree::Text(s));
    assert forall|i: int| 0 <= i < xs.len() implies float_free(#[trigger] xs[i]) by {}
}

proof fn lemma_text_array_nesting(items: Seq<Seq<char>>)
    ensures
        nested_at_most(text_array_tree(items), 1),
{
    let xs = items.map_values(|s: Seq<char>| JsonTree::Text(s));
    assert forall|i: int| 0 <= i < xs.len() implies nested_at_most(#[trigger] xs[i], 0) by {}
}

proof fn lemma_nesting_monotone(t: JsonTree, a: nat, b: nat)
    requires
        nested_at_most(t, a),
        a <= b,
    ensures
        nested_at_most(t, b),
    decreases t,
{
    match t {
        JsonTree::Array(items) => {
            assert forall|i: int| 0 <= i < items.len() implies nested_at_most(#[trigger] items[i], (b - 1) as nat) by {
                lemma_nesting_monotone(items[i], (a - 1) as nat, (b - 1) as nat);
            }
        },
        JsonTree::Object(m) => {
            assert forall|k: Seq<char>| #[trigger] m.contains_key(k) implies nested_at_most(m[k], (b - 1) as nat) by {
                lemma_nesting_monotone(m[k], (a - 1) as nat, (b - 1) as nat);
            }
        },
        _ => {},
    }
}

proof fn lemma_content_keys_distinct()
    ensures
        key_summary() != key_goals(),
        key_summary() != key_requirements(),
        key_summary() != key_acceptance_criteria(),
        key_summary() != key_notes(),
        key_goals() != key_requirements(),
        key_goals() != key_acceptance_criteria(),
        key_goals() != key_notes(),
        key_requirements() != key_acceptance_criteria(),
        key_requirements() != key_notes(),
        key_acceptance_criteria() != key_notes(),
{
    reveal_strlit("summary");
    reveal_strlit("goals");
    reveal_strlit("requirements");
    reveal_strlit("acceptance_criteria");
    reveal_strlit("notes");
    assert(key_summary().len() != key_goals().len());
    assert(key_summary().len() != key_requirements().len());
    assert(key_summary().len() != key_acceptance_criteria().len());
    assert(key_summary()[0] != key_notes()[0]);
    assert(key_goals().len() != key_requirements().len());
    assert(key_goals().len() != key_acceptance_criteria().len());
    assert(key_goals()[0] != key_notes()[0]);
    assert(key_requirements().len() != key_acceptance_criteria().len());
    assert(key_requirements().len() != key_notes().len());
    assert(key_acceptance_criteria().len() != key_notes().len());
}

/// The JSON document of a template.
pub fn content_to_json(c: &SpecContentTemplate) -> (r: serde_json::Value)
    ensures
        json_tree(r) == content_tree(c@),
        float_free(json_tree(r)),
        nested_at_most(json_tree(r), 2),
{
    let summary = json_text(c.summary.clone());
    let goals = text_array_value(&c.goals);
    let requirements = text_array_value(&c.requirements);
    let criteria = text_array_value(&c.acceptance_criteria);
    let notes = match &c.notes {
        Some(n) => json_text(n.clone()),
        None => json_null(),
    };
    let mut entries: Vec<(String, serde_json::Value)> = Vec::new();
    entries.push((String::from_str("summary"), summary));
    entries.push((String::from_str("goals"), goals));
    entries.push((String::from_str("requirements"), requirements));
    entries.push((String::from_str("acceptance_criteria"), criteria));
    entries.push((String::from_str("notes"), notes));
    proof {
        lemma_content_keys_distinct();
        let es = entry_trees(entries@);
        assert(es[0].0 == key_summary());
        assert(es[1].0 == key_goals());
        assert(es[2].0 == key_requirements());
        assert(es[3].0 == key_acceptance_criteria());
        assert(es[4].0 == key_notes());
        assert(keys_distinct(es));
        assert(es.drop_last().drop_last().drop_last().drop_last().drop_last() =~= Seq::empty());
        reveal_with_fuel(entries_map, 6);
        assert(entries_map(es) =~= match content_tree(c@) { JsonTree::Object(m) => m, _ => Map::empty() });
    }
    let r = json_object(entries);
    proof {
        lemma_text_array_float_free(texts(c.goals@));
        lemma_text_array_float_free(texts(c.requirements@));
        lemma_text_array_float_free(texts(c.acceptance_criteria@));
        let m = match content_tree(c@) { JsonTree::Object(m) => m, _ => Map::empty() };
        assert forall|k: Seq<char>| #[trigger] m.contains_key(k) implies float_free(m[k]) by {}
        lemma_text_array_nesting(texts(c.goals@));
        lemma_text_array_nesting(texts(c.requirements@));
        lemma_text_array_nesting(texts(c.acceptance_criteria@));
        assert forall|k: Seq<char>| #[trigger] m.contains_key(k) implies nested_at_most(m[k], 1) by {}
    }
    r
}

fn text_array_from(v: &serde_json::Value) -> (r: Option<Vec<String>>)
    ensures
        match text_array_of(json_tree(*v)) {
            Some(items) => r matches Some(out) && texts(out@) == items,
            None => r is None,
        },
{
    let items = match json_as_array(v) {
        Some(items) => items,
        None => return None,
    };
    let ghost ts = trees(items@);
    let mut out: Vec<String> = Vec::new();
    let mut i: usize = 0;
    while i < items.len()
        invariant
            ts == trees(items@),
            json_tree(*v) == JsonTree::Array(ts),
            i <= items.len(),
            out@.len() == i,
            forall|j: int| 0 <= j < i ==> #[trigger] ts[j] is Text,
            forall|j: int| 0 <= j < i ==> #[trigger] out@[j]@ == ts[j]->Text_0,
        decreases items.len() - i,
    {
        assert(ts[i as int] == json_tree(items@[i as int]));
        match json_as_str(&items[i]) {
            Some(s) => {
                let t = String::from_str(s);
                assert(ts[i as int] is Text);
                assert(t@ == ts[i as int]->Text_0);
                out.push(t);
                assert(out@[i as int]@ == ts[i as int]->Text_0);
            },
            None => {
                assert(!(ts[i as int] is Text));
                return None;
            },
        }
        i = i + 1;
    }
    assert(texts(out@) =~= ts.map_values(|x: JsonTree| x->Text_0));
    Some(out)
}

fn required_texts(v: &serde_json::Value, key: &str) -> (r: Option<Vec<String>>)
    requires
        json_tree(*v) is Object,
    ensures
        match required_text_array(json_tree(*v)->Object_0, key@) {
            Some(items) => r matches Some(out) && texts(out@) == items,
            None => r is None,
        },
{
    match json_get(v, key) {
        Some(x) => text_array_from(x),
        None => None,
    }
}

/// Reads a template out of the array of its five fields.
fn content_from_items(items: &Vec<serde_json::Value>) -> (r: Result<SpecContentTemplate, String>)
    ensures
        match content_of_items(trees(items@)) {
            Some(c) => r matches Ok(t) && t@ == c,
            None => r is Err,
        },
{
    if items.len() != 5 {
        return Err(String::from_str("spec content array must have 5 elements"));
    }
    let ghost ts = trees(items@);
    assert(ts[0] == json_tree(items@[0]) && ts[1] == json_tree(items@[1]) && ts[2] == json_tree(items@[2]));
    assert(ts[3] == json_tree(items@[3]) && ts[4] == json_tree(items@[4]));
    let summary = match json_as_str(&items[0]) {
        Some(s) => String::from_str(s),
        None => return Err(String::from_str("summary must be a string")),
    };
    let goals = match text_array_from(&items[1]) {
        Some(g) => g,
        None => return Err(String::from_str("goals must be an array of strings")),
    };
    let requirements = match text_array_from(&items[2]) {
        Some(g) => g,
        None => return Err(String::from_str("requirements must be an array of strings")),
    };
    let acceptance_criteria = match text_array_from(&items[3]) {
        Some(g) => g,
        None => return Err(String::from_str("acceptance_criteria must be an array of strings")),
    };
    let notes = if json_is_null(&items[4]) {
        None
    } else {
        match json_as_str(&items[4]) {
            Some(s) => Some(String::from_str(s)),
            None => return Err(String::from_str("notes must be a string or null")),
        }
    };
    Ok(SpecContentTemplate { summary, goals, requirements, acceptance_criteria, notes })
}

/// Reads a template out of its JSON document; a document that does not describe a
/// template is refused with a message.
pub fn content_from_json(v: &serde_json::Value) -> (r: Result<SpecContentTemplate, String>)
    ensures
        match content_of_tree(json_tree(*v)) {
            Some(c) => r matches Ok(t) && t@ == c,
            None => r is Err,
        },
{
    if let Some(items) = json_as_array(v) {
        return content_from_items(items);
    }
    if !json_is_object(v) {
        return Err(String::from_str("spec content must be a JSON object or array"));
    }
    let summary = match json_get(v, "summary") {
        Some(x) => match json_as_str(x) {
            Some(s) => String::from_str(s),
            None => return Err(String::from_str("summary must be a string")),
        },
        None => return Err(String::from_str("missing field `summary`")),
    };
    let goals = match required_texts(v, "goals") {
        Some(g) => g,
        None => return Err(String::from_str("goals must be an array of strings")),
    };
    let requirements = match required_texts(v, "requirements") {
        Some(g) => g,
        None => return Err(String::from_str("requirements must be an array of strings")),
    };
    let acceptance_criteria = match required_texts(v, "acceptance_criteria") {
        Some(g) => g,
        None => return Err(String::from_str("acceptance_criteria must be an array of strings")),
    };
    let notes = match json_get(v, "notes") {
        None => None,
        Some(x) => if json_is_null(x) {
            None
        } else {
            match json_as_str(x) {
                Some(s) => Some(String::from_str(s)),
                None => return Err(String::from_str("notes must be a string or null")),
            }
        },
    };
    Ok(SpecContentTemplate { summary, goals, requirements, acceptance_criteria, notes })
}

/// The JSON text a template is stored as; it reads back as the same template.
pub fn content_to_json_text(c: &SpecContentTemplate) -> (r: Result<String, serde_json::Error>)
    ensures
        r is Ok,
        r matches Ok(text) ==> parsed_json(text@) == Some(content_tree(c@)),
        r matches Ok(text) ==> content_of_text(text@) == Some(c@),
{
    let v = content_to_json(c);
    proof {
        lemma_nesting_monotone(json_tree(v), 2, 100);
    }
    let r = json_print(&v);
    let ghost g = r;
    proof {
        if let Ok(text) = g {
            lemma_stored_content_reads_back(c@, text@);
        }
    }
    r
}

/// Reads a template from stored JSON text; text that does not describe a template is
/// refused with a message.
pub fn content_from_json_text(text: &str) -> (r: Result<SpecContentTemplate, String>)
    ensures
        match content_of_text(text@) {
            Some(c) => r matches Ok(t) && t@ == c,
            None => r is Err,
        },
{
    let t = skip_space(text);
    if t.as_str().unicode_len() > 0 && t.as_str().get_char(0) == '{' {
        match read_object(text) {
            Some(members) => {
                if has_repeated_key(&members) {
                    return Err(String::from_str("spec content gives a field twice"));
                }
                let v = json_object(members);
                content_from_json(&v)
            },
            None => Err(String::from_str("spec content is not a well-formed JSON object")),
        }
    } else {
        match json_parse(text) {
            Ok(v) => match json_as_array(&v) {
                Some(items) => content_from_items(items),
                None => Err(String::from_str("spec content must be a JSON object or array")),
            },
            Err(_) => Err(String::from_str("spec content is not valid JSON")),
        }
    }
}

/// A template's JSON document describes that same template.
pub proof fn lemma_content_tree_round_trip(c: ContentView)
    ensures
        content_of_tree(content_tree(c)) == Some(c),
{
    lemma_content_keys_distinct();
    let t = content_tree(c);
    let m = t->Object_0;
    assert(m[key_summary()] == JsonTree::Text(c.summary));
    assert(m[key_goals()] == text_array_tree(c.goals));
    assert(m[key_requirements()] == text_array_tree(c.requirements));
    assert(m[key_acceptance_criteria()] == text_array_tree(c.acceptance_criteria));
    assert forall|items: Seq<Seq<char>>| #[trigger] text_array_of(text_array_tree(items)) == Some(items) by {
        let xs = items.map_values(|s: Seq<char>| JsonTree::Text(s));
        assert(xs.map_values(|x: JsonTree| x->Text_0) =~= items);
    }
    let r = content_of_tree(t).unwrap();
    assert(r.goals == c.goals);
    assert(r.notes == c.notes);
}

/// Every key of a list of entries is a key of the object they make.
proof fn lemma_entries_map_has_keys(es: Seq<(Seq<char>, JsonTree)>)
    ensures
        forall|i: int| 0 <= i < es.len() ==> #[trigger] entries_map(es).contains_key(es[i].0),
    decreases es.len(),
{
    if es.len() > 0 {
        lemma_entries_map_has_keys(es.drop_last());
        assert(entries_map(es) == entries_map(es.drop_last()).insert(es.last().0, es.last().1));
        assert forall|i: int| 0 <= i < es.len() implies #[trigger] entries_map(es).contains_key(es[i].0) by {
            if i < es.len() - 1 {
                assert(es.drop_last()[i] == es[i]);
                assert(entries_map(es.drop_last()).contains_key(es.drop_last()[i].0));
            } else {
                assert(es[i] == es.last());
            }
        }
    }
}

/// Reading members for the template's keys lists what reading every member lists, when
/// every member read is one of the template's.
proof fn lemma_template_members_read_all(t: Seq<char>)
    requires
        members_from(t, every_key()) matches Some((ms, _)) && forall|i: int| 0 <= i < ms.len() ==> is_template_key(#[trigger] ms[i].0),
    ensures
        members_from(t, template_keys()) == members_from(t, every_key()),
    decreases t.len(),
{
    if let Some((JsonTree::Text(key), after_key)) = json_prefix(t) {
        let at_colon = skip_json_space(after_key);
        let (ms, _) = members_from(t, every_key()).unwrap();
        assert(ms[0].0 == key);
        assert((template_keys())(key));
        assert((every_key())(key));
        if let Some((v, after_value)) = json_prefix(at_colon.drop_first()) {
            let next = skip_json_space(after_value);
            if after_value.len() < t.len() && next.len() > 0 && next[0] == ',' {
                lemma_skip_json_space_shorter(after_value);
                let (more, _) = members_from(next.drop_first(), every_key()).unwrap();
                assert forall|i: int| 0 <= i < more.len() implies is_template_key(#[trigger] more[i].0) by {
                    assert(ms[i + 1] == more[i]);
                }
                lemma_template_members_read_all(next.drop_first());
            }
        }
    }
}

/// Text that holds, member by member, a template's JSON object reads back as that
/// template.
pub proof fn lemma_stored_content_reads_back(c: ContentView, text: Seq<char>)
    requires
        object_members(text, every_key()) matches Some(ms) && keys_distinct(ms)
            && entries_map(ms) == content_tree(c)->Object_0,
    ensures
        content_of_text(text) == Some(c),
{
    let ms = object_members(text, every_key()).unwrap();
    lemma_entries_map_has_keys(ms);
    lemma_content_keys_distinct();
    assert forall|i: int| 0 <= i < ms.len() implies is_template_key(#[trigger] ms[i].0) by {
        assert(entries_map(ms).contains_key(ms[i].0));
    }
    let t = skip_json_space(text);
    let inner = skip_json_space(t.drop_first());
    if !(inner.len() > 0 && inner[0] == '}') {
        lemma_template_members_read_all(t.drop_first());
    }
    lemma_content_tree_round_trip(c);
}

} // verus!
