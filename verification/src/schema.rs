use vstd::prelude::*;
use crate::text::{owned, str_eq};

verus! {

/// Renders a list of strings with std's `Debug` formatting (`["a", "b"]`,
/// strings quoted and escaped as `str`'s `Debug` does); the result is named
/// `debug_list_text` of the list's texts and not spelled out here.
#[verifier::external_body]
fn debug_list(items: &Vec<String>) -> (r: String)
    ensures
        r@ == debug_list_text(items.deep_view()),
{
    format!("{:?}", items)
}

/// What std's `Debug` formatting of a list of strings gives.
pub uninterp spec fn debug_list_text(items: Seq<Seq<char>>) -> Seq<char>;

/// A parameter of an action, as the pipeline schema describes it.
#[derive(Debug, Clone)]
pub struct ParamSchema {
    pub id: u32,
    pub name: String,
    pub ty: String,
    pub bitwidth: u32,
}

/// An action of a table, as the pipeline schema describes it.
#[derive(Debug, Clone)]
pub struct ActionSchema {
    pub id: u32,
    pub name: String,
    pub params: Vec<ParamSchema>,
}

/// A key field of a table, as the pipeline schema describes it.
#[derive(Debug, Clone)]
pub struct KeyFieldSchema {
    pub id: u32,
    pub name: String,
    pub ty: String,
    pub match_type: String,
    pub bitwidth: u32,
}

/// A table of a pipeline. Its actions are looked up by name; where two
/// carry the same name, the later one is the one found.
#[derive(Debug, Clone)]
pub struct TableSchema {
    pub name: String,
    pub id: u32,
    pub keysize: u32,
    pub key_fields: Vec<KeyFieldSchema>,
    pub actions: Vec<ActionSchema>,
}

/// An instance of an extern, with the names of its data parameters.
#[derive(Debug, Clone)]
pub struct ExternInstanceSchema {
    pub name: String,
    pub id: u32,
    pub param_names: Vec<String>,
}

/// An extern of a pipeline. Its instances are looked up by name; where two
/// carry the same name, the later one is the one found.
#[derive(Debug, Clone)]
pub struct ExternSchema {
    pub name: String,
    pub id: String,
    pub instances: Vec<ExternInstanceSchema>,
}

/// The schema of a pipeline. Tables and externs are looked up by name; where
/// two carry the same name, the later one is the one found.
#[derive(Debug, Clone)]
pub struct PipelineSchema {
    pub name: String,
    pub tables: Vec<TableSchema>,
    pub externs: Vec<ExternSchema>,
}

/// The texts of a list of name/value pairs.
pub open spec fn pairs_view(p: Seq<(&str, &str)>) -> Seq<(Seq<char>, Seq<char>)> {
    p.map_values(|x: (&str, &str)| (x.0@, x.1@))
}

/// The value paired with `name`: that of the last pair carrying it.
pub open spec fn pair_lookup(pairs: Seq<(Seq<char>, Seq<char>)>, name: Seq<char>) -> Option<
    Seq<char>,
>
    decreases pairs.len(),
{
    if pairs.len() == 0 {
        None
    } else if pairs.last().0 == name {
        Some(pairs.last().1)
    } else {
        pair_lookup(pairs.drop_last(), name)
    }
}

/// The values of the given names, in the order of the names, skipping names
/// that no pair carries.
pub open spec fn values_in_order(names: Seq<Seq<char>>, pairs: Seq<(Seq<char>, Seq<char>)>) -> Seq<
    Seq<char>,
>
    decreases names.len(),
{
    if names.len() == 0 {
        Seq::empty()
    } else {
        let rest = values_in_order(names.drop_last(), pairs);
        match pair_lookup(pairs, names.last()) {
            Some(v) => rest.push(v),
            None => rest,
        }
    }
}

/// The names of the pairs, in order, that are not among `known`.
pub open spec fn unknown_names(pairs: Seq<(Seq<char>, Seq<char>)>, known: Seq<Seq<char>>) -> Seq<
    Seq<char>,
>
    decreases pairs.len(),
{
    if pairs.len() == 0 {
        Seq::empty()
    } else {
        let rest = unknown_names(pairs.drop_last(), known);
        if known.contains(pairs.last().0) {
            rest
        } else {
            rest.push(pairs.last().0)
        }
    }
}

/// What validating name/value pairs against an ordered list of known names
/// gives: the values in the order of the known names, or, when some pair's
/// name is unknown, the error text built by `message`.
pub open spec fn validation_result(
    pairs: Seq<(Seq<char>, Seq<char>)>,
    known: Seq<Seq<char>>,
    message: spec_fn(Seq<char>) -> Seq<char>,
) -> Result<Seq<Seq<char>>, Seq<char>> {
    let unknown = unknown_names(pairs, known);
    if unknown.len() > 0 {
        Err(message(debug_list_text(unknown)))
    } else {
        Ok(values_in_order(known, pairs))
    }
}

/// The view of a validation result.
pub open spec fn validation_view(r: Result<Vec<String>, String>) -> Result<Seq<Seq<char>>, Seq<char>> {
    match r {
        Ok(v) => Ok(v.deep_view()),
        Err(e) => Err(e@),
    }
}

/// The texts of the names of key fields.
pub open spec fn key_field_names(f: Seq<KeyFieldSchema>) -> Seq<Seq<char>> {
    f.map_values(|k: KeyFieldSchema| k.name@)
}

/// The texts of the names of action parameters.
pub open spec fn param_names(p: Seq<ParamSchema>) -> Seq<Seq<char>> {
    p.map_values(|k: ParamSchema| k.name@)
}

/// The index of the last name of the list equal to `name`, or `-1`.
pub open spec fn last_index_named(names: Seq<Seq<char>>, name: Seq<char>) -> int
    decreases names.len(),
{
    if names.len() == 0 {
        -1
    } else if names.last() == name {
        names.len() - 1
    } else {
        last_index_named(names.drop_last(), name)
    }
}

/// A lookup by name finds the last element carrying the name, or nothing
/// when no element carries it.
pub open spec fn lookup_spec<T>(r: Option<&T>, items: Seq<T>, names: Seq<Seq<char>>, name: Seq<char>) -> bool {
    let i = last_index_named(names, name);
    if i < 0 {
        r is None
    } else {
        r matches Some(x) && *x == items[i]
    }
}

/// `last_index_named` is `-1` or the index of the last element equal to `name`.
pub proof fn lemma_last_index_named(names: Seq<Seq<char>>, name: Seq<char>)
    ensures
        -1 <= last_index_named(names, name) < names.len(),
        last_index_named(names, name) >= 0 ==> names[last_index_named(names, name)] == name,
        forall|j: int|
            last_index_named(names, name) < j < names.len() ==> names[j] != name,
    decreases names.len(),
{
    if names.len() > 0 && names.last() != name {
        lemma_last_index_named(names.drop_last(), name);
        assert forall|j: int| last_index_named(names, name) < j < names.len() implies names[j]
            != name by {
            if j < names.len() - 1 {
                assert(names.drop_last()[j] == names[j]);
            }
        }
    }
}

/// The values of `pairs` for `names` in the order of `names`, and the names
/// of pairs that are not among `names`.
fn order_by_names(names: &Vec<String>, pairs: &[(&str, &str)]) -> (r: (Vec<String>, Vec<String>))
    ensures
        r.0.deep_view() == values_in_order(names.deep_view(), pairs_view(pairs@)),
        r.1.deep_view() == unknown_names(pairs_view(pairs@), names.deep_view()),
{
    let ghost pv = pairs_view(pairs@);
    let ghost nv = names.deep_view();
    let mut unknown: Vec<String> = Vec::new();
    let mut i: usize = 0;
    while i < pairs.len()
        invariant
            i <= pairs@.len(),
            pv == pairs_view(pairs@),
            nv == names.deep_view(),
            unknown.deep_view() == unknown_names(pv.take(i as int), nv),
        decreases pairs@.len() - i,
    {
        let (k, _) = pairs[i];
        let mut found = false;
        let mut j: usize = 0;
        while j < names.len()
            invariant
                j <= names@.len(),
                nv == names.deep_view(),
                found == exists|m: int| 0 <= m < j && nv[m] == k@,
            decreases names@.len() - j,
        {
            assert(nv[j as int] == names@[j as int]@);
            if str_eq(names[j].as_str(), k) {
                found = true;
            }
            j = j + 1;
        }
        proof {
            assert(pv.take(i + 1).drop_last() =~= pv.take(i as int));
            assert(pv.take(i + 1).last() == (k@, pairs@[i as int].1@));
            if found {
                let m = choose|m: int| 0 <= m < j && nv[m] == k@;
                assert(nv.contains(k@));
            } else {
                assert(!nv.contains(k@));
            }
        }
        if !found {
            unknown.push(owned(k));
        }
        i = i + 1;
        assert(unknown.deep_view() =~= unknown_names(pv.take(i as int), nv));
    }
    assert(pv.take(pairs@.len() as int) =~= pv);
    let mut values: Vec<String> = Vec::new();
    let mut n: usize = 0;
    while n < names.len()
        invariant
            n <= names@.len(),
            pv == pairs_view(pairs@),
            nv == names.deep_view(),
            values.deep_view() == values_in_order(nv.take(n as int), pv),
        decreases names@.len() - n,
    {
        let found = find_value(pairs, names[n].as_str());
        proof {
            assert(nv.take(n + 1).drop_last() =~= nv.take(n as int));
            assert(nv.take(n + 1).last() == names@[n as int]@);
        }
        match found {
            Some(v) => {
                values.push(owned(v));
            },
            None => {},
        }
        n = n + 1;
        assert(values.deep_view() =~= values_in_order(nv.take(n as int), pv));
    }
    assert(nv.take(names@.len() as int) =~= nv);
    (values, unknown)
}

/// The value of the last pair whose name is `name`.
fn find_value<'a>(pairs: &[(&'a str, &'a str)], name: &str) -> (r: Option<&'a str>)
    ensures
        match r {
            Some(v) => pair_lookup(pairs_view(pairs@), name@) == Some(v@),
            None => pair_lookup(pairs_view(pairs@), name@) is None,
        },
{
    let ghost pv = pairs_view(pairs@);
    let mut i: usize = pairs.len();
    assert(pv.take(pairs@.len() as int) =~= pv);
    while i > 0
        invariant
            i <= pairs@.len(),
            pv == pairs_view(pairs@),
            pair_lookup(pv, name@) == pair_lookup(pv.take(i as int), name@),
        decreases i,
    {
        let (k, v) = pairs[i - 1];
        proof {
            assert(pv.take(i as int).last() == (k@, v@));
            assert(pv.take(i as int).drop_last() =~= pv.take(i - 1));
        }
        if str_eq(k, name) {
            return Some(v);
        }
        i = i - 1;
    }
    None
}

/// Validates name/value pairs against ordered names; builds the message of
/// the error from the rendered list of unknown names.
fn validate_pairs(names: &Vec<String>, pairs: &[(&str, &str)]) -> (r: (Result<Vec<String>, Vec<String>>))
    ensures
        match r {
            Ok(v) => unknown_names(pairs_view(pairs@), names.deep_view()).len() == 0
                && v.deep_view() == values_in_order(names.deep_view(), pairs_view(pairs@)),
            Err(u) => unknown_names(pairs_view(pairs@), names.deep_view()).len() > 0
                && u.deep_view() == unknown_names(pairs_view(pairs@), names.deep_view()),
        },
{
    let (values, unknown) = order_by_names(names, pairs);
    if unknown.len() > 0 {
        Err(unknown)
    } else {
        Ok(values)
    }
}

impl ActionSchema {
    /// The names of the action's parameters, in schema order.
    fn names(&self) -> (r: Vec<String>)
        ensures
            r.deep_view() == param_names(self.params@),
    {
        let mut r: Vec<String> = Vec::new();
        let mut i: usize = 0;
        while i < self.params.len()
            invariant
                i <= self.params@.len(),
                r.deep_view() =~= param_names(self.params@).take(i as int),
            decreases self.params@.len() - i,
        {
            let ghost before = r.deep_view();
            r.push(self.params[i].name.clone());
            assert(r.deep_view() =~= before.push(self.params@[i as int].name@));
            i = i + 1;
        }
        r
    }

    /// Checks named parameter values against the action's parameters and
    /// puts them in the schema's parameter order. A parameter that no pair
    /// names is left out. Where some pair names no parameter of the action,
    /// the error says which (in the order of the pairs) and which are
    /// available.
    pub fn validate_params(&self, params: &[(&str, &str)]) -> (r: Result<Vec<String>, String>)
        ensures
            validation_view(r) == validation_result(
                pairs_view(params@),
                param_names(self.params@),
                |u: Seq<char>|
                    "unknown param(s) "@ + u + " for action '"@ + self.name@ + "', available: "@
                        + debug_list_text(param_names(self.params@)),
            ),
    {
        let names = self.names();
        match validate_pairs(&names, params) {
            Ok(v) => Ok(v),
            Err(unknown) => {
                let mut msg = String::from_str("unknown param(s) ");
                msg.append(debug_list(&unknown).as_str());
                msg.append(" for action '");
                msg.append(self.name.as_str());
                msg.append("', available: ");
                msg.append(debug_list(&names).as_str());
                Err(msg)
            },
        }
    }
}

impl TableSchema {
    /// The names of the table's key fields, in schema order.
    fn names(&self) -> (r: Vec<String>)
        ensures
            r.deep_view() == key_field_names(self.key_fields@),
    {
        let mut r: Vec<String> = Vec::new();
        let mut i: usize = 0;
        while i < self.key_fields.len()
            invariant
                i <= self.key_fields@.len(),
                r.deep_view() =~= key_field_names(self.key_fields@).take(i as int),
            decreases self.key_fields@.len() - i,
        {
            let ghost before = r.deep_view();
            r.push(self.key_fields[i].name.clone());
            assert(r.deep_view() =~= before.push(self.key_fields@[i as int].name@));
            i = i + 1;
        }
        r
    }

    /// Checks named key values against the table's key fields and puts them
    /// in the schema's field order. A field that no pair names is left out.
    /// Where some pair names no key field, the error says which (in the order
    /// of the pairs) and which are available.
    pub fn validate_key(&self, key: &[(&str, &str)]) -> (r: Result<Vec<String>, String>)
        ensures
            validation_view(r) == validation_result(
                pairs_view(key@),
                key_field_names(self.key_fields@),
                |u: Seq<char>|
                    "unknown key field(s) "@ + u + ", available: "@ + debug_list_text(
                        key_field_names(self.key_fields@),
                    ),
            ),
    {
        let names = self.names();
        match validate_pairs(&names, key) {
            Ok(v) => Ok(v),
            Err(unknown) => {
                let mut msg = String::from_str("unknown key field(s) ");
                msg.append(debug_list(&unknown).as_str());
                msg.append(", available: ");
                msg.append(debug_list(&names).as_str());
                Err(msg)
            },
        }
    }
}


/// The texts of the names of actions.
pub open spec fn action_names(a: Seq<ActionSchema>) -> Seq<Seq<char>> {
    a.map_values(|x: ActionSchema| x.name@)
}

/// The texts of the names of extern instances.
pub open spec fn instance_names(a: Seq<ExternInstanceSchema>) -> Seq<Seq<char>> {
    a.map_values(|x: ExternInstanceSchema| x.name@)
}

/// The texts of the names of tables.
pub open spec fn table_names(a: Seq<TableSchema>) -> Seq<Seq<char>> {
    a.map_values(|x: TableSchema| x.name@)
}

/// The texts of the names of externs.
pub open spec fn extern_names(a: Seq<ExternSchema>) -> Seq<Seq<char>> {
    a.map_values(|x: ExternSchema| x.name@)
}

/// The match type of a key field whose schema gives none.
pub fn default_match_type() -> (r: String)
    ensures
        r@ == "exact"@,
{
    String::from_str("exact")
}

/// The names of an extern instance's data parameters: of its schema
/// entries, given as (name, attribute) pairs, those whose attribute is
/// `param`, in order.
pub fn data_param_names(entries: &[(String, String)]) -> (r: Vec<String>)
    ensures
        r.deep_view() == entries@.filter(|e: (String, String)| e.1@ == "param"@).map_values(
            |e: (String, String)| e.0@,
        ),
{
    let ghost keep = |e: (String, String)| e.1@ == "param"@;
    let mut r: Vec<String> = Vec::new();
    let mut i: usize = 0;
    while i < entries.len()
        invariant
            i <= entries@.len(),
            keep == (|e: (String, String)| e.1@ == "param"@),
            r.deep_view() =~= entries@.take(i as int).filter(keep).map_values(
                |e: (String, String)| e.0@,
            ),
        decreases entries@.len() - i,
    {
        let ghost before = r.deep_view();
        proof {
            assert(entries@.take(i + 1).drop_last() =~= entries@.take(i as int));
            reveal_with_fuel(Seq::<(String, String)>::filter, 1);
        }
        if str_eq(entries[i].1.as_str(), "param") {
            r.push(entries[i].0.clone());
            assert(r.deep_view() =~= before.push(entries@[i as int].0@));
        }
        i = i + 1;
    }
    assert(entries@.take(entries@.len() as int) =~= entries@);
    r
}

impl TableSchema {
    /// The action of the table with the given name (the last one so named).
    pub fn get_action(&self, name: &str) -> (r: Option<&ActionSchema>)
        ensures
            lookup_spec(r, self.actions@, action_names(self.actions@), name@),
    {
        let ghost names = action_names(self.actions@);
        let mut i: usize = self.actions.len();
        assert(names.take(names.len() as int) =~= names);
        while i > 0
            invariant
                i <= self.actions@.len(),
                names == action_names(self.actions@),
                last_index_named(names, name@) == last_index_named(names.take(i as int), name@),
            decreases i,
        {
            assert(names.take(i as int).drop_last() =~= names.take(i - 1));
            if str_eq(self.actions[i - 1].name.as_str(), name) {
                return Some(&self.actions[i - 1]);
            }
            i = i - 1;
        }
        None
    }
}

impl ExternSchema {
    /// The instance of the extern with the given name (the last one so named).
    pub fn get_instance(&self, name: &str) -> (r: Option<&ExternInstanceSchema>)
        ensures
            lookup_spec(r, self.instances@, instance_names(self.instances@), name@),
    {
        let ghost names = instance_names(self.instances@);
        let mut i: usize = self.instances.len();
        assert(names.take(names.len() as int) =~= names);
        while i > 0
            invariant
                i <= self.instances@.len(),
                names == instance_names(self.instances@),
                last_index_named(names, name@) == last_index_named(names.take(i as int), name@),
            decreases i,
        {
            assert(names.take(i as int).drop_last() =~= names.take(i - 1));
            if str_eq(self.instances[i - 1].name.as_str(), name) {
                return Some(&self.instances[i - 1]);
            }
            i = i - 1;
        }
        None
    }
}

impl PipelineSchema {
    /// The table of the pipeline with the given name (the last one so named).
    pub fn get_table(&self, name: &str) -> (r: Option<&TableSchema>)
        ensures
            lookup_spec(r, self.tables@, table_names(self.tables@), name@),
    {
        let ghost names = table_names(self.tables@);
        let mut i: usize = self.tables.len();
        assert(names.take(names.len() as int) =~= names);
        while i > 0
            invariant
                i <= self.tables@.len(),
                names == table_names(self.tables@),
                last_index_named(names, name@) == last_index_named(names.take(i as int), name@),
            decreases i,
        {
            assert(names.take(i as int).drop_last() =~= names.take(i - 1));
            if str_eq(self.tables[i - 1].name.as_str(), name) {
                return Some(&self.tables[i - 1]);
            }
            i = i - 1;
        }
        None
    }

    /// The extern of the pipeline with the given name (the last one so named).
    pub fn get_extern(&self, name: &str) -> (r: Option<&ExternSchema>)
        ensures
            lookup_spec(r, self.externs@, extern_names(self.externs@), name@),
    {
        let ghost names = extern_names(self.externs@);
        let mut i: usize = self.externs.len();
        assert(names.take(names.len() as int) =~= names);
        while i > 0
            invariant
                i <= self.externs@.len(),
                names == extern_names(self.externs@),
                last_index_named(names, name@) == last_index_named(names.take(i as int), name@),
            decreases i,
        {
            assert(names.take(i as int).drop_last() =~= names.take(i - 1));
            if str_eq(self.externs[i - 1].name.as_str(), name) {
                return Some(&self.externs[i - 1]);
            }
            i = i - 1;
        }
        None
    }
}

} // verus!
