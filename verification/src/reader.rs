use vstd::prelude::*;
use crate::jsonval::{bool_of, elems_of, field_of, map_keys, obj_keys, object_get, str_of,
    value_as_array, value_as_bool, value_as_object, value_as_str, value_get};
use crate::loader::{build_grammar_spec, ArgumentDoc, ArgumentDocView, CommandDoc, CommandDocView,
    NameField, NameFieldView, OptionDoc, OptionDocView, SubcommandDoc, SubcommandDocView};
use crate::model::FigCommand;

verus! {

/// The string content of field `key` of `v`, when `v` is an object carrying
/// `key` as a string.
pub open spec fn str_field_of(v: serde_json::Value, key: Seq<char>) -> Option<Seq<char>> {
    match field_of(v, key) {
        Option::Some(f) => str_of(f),
        Option::None => Option::None,
    }
}

/// The boolean of field `key` of `v`, when `v` is an object carrying `key`
/// as a boolean.
pub open spec fn bool_field_of(v: serde_json::Value, key: Seq<char>) -> Option<bool> {
    match field_of(v, key) {
        Option::Some(f) => bool_of(f),
        Option::None => Option::None,
    }
}

/// The elements of field `key` of `v`, when `v` is an object carrying `key`
/// as an array.
pub open spec fn elems_field_of(v: serde_json::Value, key: Seq<char>) -> Option<
    Seq<serde_json::Value>,
> {
    match field_of(v, key) {
        Option::Some(f) => elems_of(f),
        Option::None => Option::None,
    }
}

/// The key set of field `key` of `v`, when `v` is an object carrying `key`
/// as an object.
pub open spec fn keys_field_of(v: serde_json::Value, key: Seq<char>) -> Option<Set<Seq<char>>> {
    match field_of(v, key) {
        Option::Some(f) => obj_keys(f),
        Option::None => Option::None,
    }
}

/// Each element read as a string: `None` entries stand for elements that are
/// not strings.
pub open spec fn str_items_of(items: Seq<serde_json::Value>) -> Seq<Option<Seq<char>>> {
    items.map_values(|e: serde_json::Value| str_of(e))
}

/// The string content of field `id`, when the value is an object carrying
/// `id` as a string.
pub fn get_str(value: &serde_json::Value, id: &str) -> (r: Option<String>)
    ensures
        r.deep_view() == str_field_of(*value, id@),
{
    match value_get(value, id) {
        Option::Some(f) => value_as_str(&f),
        Option::None => None,
    }
}

/// The boolean of field `id`, when the value is an object carrying `id` as a
/// boolean.
pub fn get_bool(value: &serde_json::Value, id: &str) -> (r: Option<bool>)
    ensures
        r == bool_field_of(*value, id@),
{
    match value_get(value, id) {
        Option::Some(f) => value_as_bool(&f),
        Option::None => None,
    }
}

/// The elements of field `id`, when the value is an object carrying `id` as
/// an array.
pub fn get_vec(value: &serde_json::Value, id: &str) -> (r: Option<Vec<serde_json::Value>>)
    ensures
        (r is Some) == (elems_field_of(*value, id@) is Some),
        r is Some ==> elems_field_of(*value, id@) == Option::Some(r.unwrap()@),
{
    match value_get(value, id) {
        Option::Some(f) => value_as_array(&f),
        Option::None => None,
    }
}

/// The entries of field `id`, when the value is an object carrying `id` as
/// an object.
pub fn get_map(value: &serde_json::Value, id: &str) -> (r: Option<
    serde_json::Map<String, serde_json::Value>,
>)
    ensures
        (r is Some) == (keys_field_of(*value, id@) is Some),
        r is Some ==> keys_field_of(*value, id@) == Option::Some(map_keys(r.unwrap())),
{
    match value_get(value, id) {
        Option::Some(f) => value_as_object(&f),
        Option::None => None,
    }
}

/// Each element read as a string, `None` standing for a non-string element.
fn read_str_values(items: &Vec<serde_json::Value>) -> (r: Vec<Option<String>>)
    ensures
        r.deep_view() == str_items_of(items@),
{
    let mut out: Vec<Option<String>> = Vec::new();
    let n = items.len();
    let mut i: usize = 0;
    proof {
        assert(out.deep_view() =~= str_items_of(items@.subrange(0, 0)));
    }
    while i < n
        invariant
            i <= n,
            n == items.len(),
            out.deep_view() == str_items_of(items@.subrange(0, i as int)),
        decreases n - i,
    {
        let ghost prev = out.deep_view();
        let s = value_as_str(&items[i]);
        out.push(s);
        proof {
            assert(out.deep_view() =~= prev.push(str_of(items@[i as int])));
            assert(out.deep_view() =~= str_items_of(items@.subrange(0, i as int + 1)));
        }
        i += 1;
    }
    proof {
        assert(items@.subrange(0, n as int) =~= items@);
    }
    out
}

/// The raw string entries of array field `id`: what
/// [`read_argument_spec`]'s `template` and `suggestions` fields denote.
pub open spec fn str_items_field_of(v: serde_json::Value, key: Seq<char>) -> Option<
    Seq<Option<Seq<char>>>,
> {
    match elems_field_of(v, key) {
        Option::Some(items) => Option::Some(str_items_of(items)),
        Option::None => Option::None,
    }
}

/// Each element of array field `id` read as a string: `None` entries stand
/// for elements that are not strings; `None` overall when the field is
/// absent or not an array.
fn read_str_items(value: &serde_json::Value, id: &str) -> (r: Option<Vec<Option<String>>>)
    ensures
        r.deep_view() == str_items_field_of(*value, id@),
{
    match get_vec(value, id) {
        Option::None => None,
        Option::Some(items) => Some(read_str_values(&items)),
    }
}

/// The raw reads of one argument document.
pub open spec fn read_argument_spec(v: serde_json::Value) -> ArgumentDocView {
    ArgumentDocView {
        name: str_field_of(v, "name"@),
        is_optional: bool_field_of(v, "isOptional"@),
        is_variadic: bool_field_of(v, "isVariadic"@),
        template: str_items_field_of(v, "template"@),
        suggestions: str_items_field_of(v, "suggestions"@),
    }
}

fn read_argument(value: &serde_json::Value) -> (r: ArgumentDoc)
    ensures
        r@ == read_argument_spec(*value),
{
    ArgumentDoc {
        name: get_str(value, "name"),
        is_optional: get_bool(value, "isOptional"),
        is_variadic: get_bool(value, "isVariadic"),
        template: read_str_items(value, "template"),
        suggestions: read_str_items(value, "suggestions"),
    }
}

/// The raw shape of an option's `name` field: a string gives the single
/// form; an array gives the listed form with each element read as a string;
/// anything else reads as absent.
pub open spec fn name_field_spec(v: serde_json::Value) -> NameFieldView {
    match field_of(v, "name"@) {
        Option::None => NameFieldView::Absent,
        Option::Some(nv) => match str_of(nv) {
            Option::Some(s) => NameFieldView::Single(s),
            Option::None => match elems_of(nv) {
                Option::Some(items) => NameFieldView::Listed(str_items_of(items)),
                Option::None => NameFieldView::Absent,
            },
        },
    }
}

fn read_name(value: &serde_json::Value) -> (r: NameField)
    ensures
        r@ == name_field_spec(*value),
{
    match value_get(value, "name") {
        Option::None => NameField::Absent,
        Option::Some(nv) => {
            match value_as_str(&nv) {
                Option::Some(s) => NameField::Single(s),
                Option::None => {
                    match value_as_array(&nv) {
                        Option::None => NameField::Absent,
                        Option::Some(items) => NameField::Listed(read_str_values(&items)),
                    }
                },
            }
        },
    }
}

/// The raw argument documents of array field `key` of `v`; an absent or
/// malformed field denotes no documents.
pub open spec fn read_arguments_spec(v: serde_json::Value, key: Seq<char>) -> Seq<ArgumentDocView> {
    match elems_field_of(v, key) {
        Option::Some(items) => items.map_values(|e: serde_json::Value| read_argument_spec(e)),
        Option::None => Seq::empty(),
    }
}

fn read_arguments(value: &serde_json::Value, id: &str) -> (r: Vec<ArgumentDoc>)
    ensures
        r.deep_view() == read_arguments_spec(*value, id@),
{
    let mut out: Vec<ArgumentDoc> = Vec::new();
    match get_vec(value, id) {
        Option::None => {
            proof {
                assert(out.deep_view() =~= read_arguments_spec(*value, id@));
            }
        },
        Option::Some(items) => {
            let ghost f = |e: serde_json::Value| read_argument_spec(e);
            let n = items.len();
            let mut i: usize = 0;
            proof {
                assert(out.deep_view() =~= items@.subrange(0, 0).map_values(f));
            }
            while i < n
                invariant
                    i <= n,
                    n == items.len(),
                    out.deep_view() == items@.subrange(0, i as int).map_values(f),
                    f == (|e: serde_json::Value| read_argument_spec(e)),
                decreases n - i,
            {
                let ghost prev = out.deep_view();
                let d = read_argument(&items[i]);
                out.push(d);
                proof {
                    assert(out.deep_view() =~= prev.push(read_argument_spec(items@[i as int])));
                    assert(out.deep_view() =~= items@.subrange(0, i as int + 1).map_values(f));
                }
                i += 1;
            }
            proof {
                assert(items@.subrange(0, n as int) =~= items@);
            }
        },
    }
    out
}

/// The raw reads of one option document.
pub open spec fn read_option_spec(v: serde_json::Value) -> OptionDocView {
    OptionDocView {
        name: name_field_spec(v),
        description: str_field_of(v, "description"@),
        args: read_arguments_spec(v, "args"@),
    }
}

fn read_option(value: &serde_json::Value) -> (r: OptionDoc)
    ensures
        r@ == read_option_spec(*value),
{
    OptionDoc {
        name: read_name(value),
        description: get_str(value, "description"),
        args: read_arguments(value, "args"),
    }
}

/// The raw option documents of array field `key` of `v`; an absent or
/// malformed field denotes no documents.
pub open spec fn read_options_spec(v: serde_json::Value, key: Seq<char>) -> Seq<OptionDocView> {
    match elems_field_of(v, key) {
        Option::Some(items) => items.map_values(|e: serde_json::Value| read_option_spec(e)),
        Option::None => Seq::empty(),
    }
}

fn read_options(value: &serde_json::Value, id: &str) -> (r: Vec<OptionDoc>)
    ensures
        r.deep_view() == read_options_spec(*value, id@),
{
    let mut out: Vec<OptionDoc> = Vec::new();
    match get_vec(value, id) {
        Option::None => {
            proof {
                assert(out.deep_view() =~= read_options_spec(*value, id@));
            }
        },
        Option::Some(items) => {
            let ghost f = |e: serde_json::Value| read_option_spec(e);
            let n = items.len();
            let mut i: usize = 0;
            proof {
                assert(out.deep_view() =~= items@.subrange(0, 0).map_values(f));
            }
            while i < n
                invariant
                    i <= n,
                    n == items.len(),
                    out.deep_view() == items@.subrange(0, i as int).map_values(f),
                    f == (|e: serde_json::Value| read_option_spec(e)),
                decreases n - i,
            {
                let ghost prev = out.deep_view();
                let d = read_option(&items[i]);
                out.push(d);
                proof {
                    assert(out.deep_view() =~= prev.push(read_option_spec(items@[i as int])));
                    assert(out.deep_view() =~= items@.subrange(0, i as int + 1).map_values(f));
                }
                i += 1;
            }
            proof {
                assert(items@.subrange(0, n as int) =~= items@);
            }
        },
    }
    out
}

/// The raw reads of one subcommand document.
pub open spec fn read_subcommand_spec(v: serde_json::Value) -> SubcommandDocView {
    SubcommandDocView {
        name: str_field_of(v, "name"@),
        description: str_field_of(v, "description"@),
        options: read_options_spec(v, "options"@),
        args: read_arguments_spec(v, "args"@),
    }
}

fn read_subcommand(value: &serde_json::Value) -> (r: SubcommandDoc)
    ensures
        r@ == read_subcommand_spec(*value),
{
    SubcommandDoc {
        name: get_str(value, "name"),
        description: get_str(value, "description"),
        options: read_options(value, "options"),
        args: read_arguments(value, "args"),
    }
}

/// The raw subcommand documents of array field `key` of `v`; an absent or
/// malformed field denotes no documents.
pub open spec fn read_subcommands_spec(v: serde_json::Value, key: Seq<char>) -> Seq<
    SubcommandDocView,
> {
    match elems_field_of(v, key) {
        Option::Some(items) => items.map_values(|e: serde_json::Value| read_subcommand_spec(e)),
        Option::None => Seq::empty(),
    }
}

fn read_subcommands(value: &serde_json::Value, id: &str) -> (r: Vec<SubcommandDoc>)
    ensures
        r.deep_view() == read_subcommands_spec(*value, id@),
{
    let mut out: Vec<SubcommandDoc> = Vec::new();
    match get_vec(value, id) {
        Option::None => {
            proof {
                assert(out.deep_view() =~= read_subcommands_spec(*value, id@));
            }
        },
        Option::Some(items) => {
            let ghost f = |e: serde_json::Value| read_subcommand_spec(e);
            let n = items.len();
            let mut i: usize = 0;
            proof {
                assert(out.deep_view() =~= items@.subrange(0, 0).map_values(f));
            }
            while i < n
                invariant
                    i <= n,
                    n == items.len(),
                    out.deep_view() == items@.subrange(0, i as int).map_values(f),
                    f == (|e: serde_json::Value| read_subcommand_spec(e)),
                decreases n - i,
            {
                let ghost prev = out.deep_view();
                let d = read_subcommand(&items[i]);
                out.push(d);
                proof {
                    assert(out.deep_view() =~= prev.push(read_subcommand_spec(items@[i as int])));
                    assert(out.deep_view() =~= items@.subrange(0, i as int + 1).map_values(f));
                }
                i += 1;
            }
            proof {
                assert(items@.subrange(0, n as int) =~= items@);
            }
        },
    }
    out
}

/// The raw reads of a whole command document.
pub open spec fn read_command_spec(v: serde_json::Value) -> CommandDocView {
    CommandDocView {
        name: str_field_of(v, "name"@),
        args: read_arguments_spec(v, "args"@),
        options: read_options_spec(v, "options"@),
        subcommands: read_subcommands_spec(v, "subcommands"@),
    }
}

/// The raw reads of a whole command document.
pub fn read_command(value: &serde_json::Value) -> (r: CommandDoc)
    ensures
        r@ == read_command_spec(*value),
{
    CommandDoc {
        name: get_str(value, "name"),
        args: read_arguments(value, "args"),
        options: read_options(value, "options"),
        subcommands: read_subcommands(value, "subcommands"),
    }
}

/// Looks the first token up in the keyed spec document store: found exactly
/// when there is a first token, the store is an object, and the store
/// carries that token as a key.
pub fn load(components: &Vec<String>, defs: &serde_json::Value) -> (r: Option<serde_json::Value>)
    ensures
        (r is Some) <==> (components.deep_view().len() > 0 && obj_keys(*defs) is Some && obj_keys(
            *defs,
        ).unwrap().contains(components.deep_view()[0])),
{
    if components.len() == 0 {
        return None;
    }
    let first = &components[0];
    proof {
        assert(components.deep_view()[0] == components@[0]@);
    }
    match value_as_object(defs) {
        Option::None => None,
        Option::Some(m) => object_get(&m, first.as_str()),
    }
}

impl FigCommand {
    /// Builds the grammar for one spec document: reads the raw fields, then
    /// validates them, failing exactly when the document carries no root
    /// `name` string.
    pub fn new(value: &serde_json::Value) -> (r: Option<FigCommand>)
        ensures
            match r {
                Option::Some(g) => build_grammar_spec(read_command_spec(*value)) == Option::Some(
                    g@,
                ),
                Option::None => build_grammar_spec(read_command_spec(*value)) is None,
            },
            (r is Some) == (str_field_of(*value, "name"@) is Some),
    {
        let doc = read_command(value);
        FigCommand::build(&doc)
    }
}

} // verus!
