use vstd::prelude::*;
use vstd::slice::slice_subrange;
use crate::decode::{decode_key_field, decode_key_spec, field_byte_len, DecodedSpec, DecodedValue};
use crate::entry::{Action, ExternEntry, KeyField, Param, TableEntry};
use crate::schema::{last_index_named, table_names, KeyFieldSchema, PipelineSchema, TableSchema};
use crate::text::{lowercase_text, owned, str_eq};

verus! {

/// A parameter as the control library reports it: its name and type name
/// (empty where the library gave none), the value bytes it pointed at (empty
/// where it gave none) and the value length it reported.
#[derive(Debug, Clone)]
pub struct RawParam {
    pub name: String,
    pub p4_type: String,
    pub value: Vec<u8>,
    pub len: u32,
}

/// An action as the control library reports it.
#[derive(Debug, Clone)]
pub struct RawAction {
    pub name: String,
    pub index: u32,
    pub params: Vec<RawParam>,
}

/// A table entry as the control library reports it: the key and mask bytes
/// it pointed at (empty where it gave none), and its other attributes.
#[derive(Debug, Clone)]
pub struct RawTableEntry {
    pub name: String,
    pub priority: u32,
    pub key: Vec<u8>,
    pub key_size: u32,
    pub mask: Vec<u8>,
    pub permissions: u32,
    pub dynamic: i32,
    pub aging_ms: u32,
    pub actions: Vec<RawAction>,
}

/// An extern instance entry as the control library reports it.
#[derive(Debug, Clone)]
pub struct RawExternEntry {
    pub kind: String,
    pub instance: String,
    pub key: u32,
    pub ext_id: u32,
    pub inst_id: u32,
    pub params: Vec<RawParam>,
}

/// The texts of a list of decoded key fields.
pub open spec fn key_fields_view(f: Seq<KeyField>) -> Seq<(Seq<char>, DecodedSpec)> {
    f.map_values(|k: KeyField| (k.name@, k.value@))
}

/// The index of the first field of the list named `name`, or `-1`.
pub open spec fn first_index_named(s: Seq<(Seq<char>, DecodedSpec)>, name: Seq<char>) -> int
    decreases s.len(),
{
    if s.len() == 0 {
        -1
    } else if s.last().0 == name && first_index_named(s.drop_last(), name) < 0 {
        s.len() - 1
    } else {
        first_index_named(s.drop_last(), name)
    }
}

/// Sets the value of field `name`: replaces the value of the field so named,
/// or adds the field at the end when there is none.
pub open spec fn set_field(s: Seq<(Seq<char>, DecodedSpec)>, name: Seq<char>, v: DecodedSpec) -> Seq<
    (Seq<char>, DecodedSpec),
> {
    let i = first_index_named(s, name);
    if i < 0 {
        s.push((name, v))
    } else {
        s.update(i, (name, v))
    }
}

/// Where the key bytes of field `k` of the list start: after the bytes of all
/// fields before it.
pub open spec fn field_offset(fields: Seq<KeyFieldSchema>, k: nat) -> nat
    decreases k,
{
    if k == 0 || k > fields.len() {
        0
    } else {
        field_offset(fields, (k - 1) as nat) + field_byte_len(fields[k - 1].bitwidth)
    }
}

/// The key fields decoded from the first `k` schema fields: each field takes
/// its bytes after those of the fields before it, and is decoded by its type
/// when all its bytes are in the key; a field whose bytes run past the key's
/// end is left out.
pub open spec fn decoded_fields(key: Seq<u8>, fields: Seq<KeyFieldSchema>, k: nat) -> Seq<
    (Seq<char>, DecodedSpec),
>
    decreases k,
{
    if k == 0 || k > fields.len() {
        Seq::empty()
    } else {
        let prev = decoded_fields(key, fields, (k - 1) as nat);
        let f = fields[k - 1];
        let off = field_offset(fields, (k - 1) as nat);
        let n = field_byte_len(f.bitwidth);
        if off + n <= key.len() {
            set_field(
                prev,
                f.name@,
                decode_key_spec(key.subrange(off as int, (off + n) as int), lowercase_text(f.ty@), f.bitwidth),
            )
        } else {
            prev
        }
    }
}

/// Every key field's width leaves room to round it up to whole bytes.
pub open spec fn widths_fit(fields: Seq<KeyFieldSchema>) -> bool {
    forall|i: int| 0 <= i < fields.len() ==> #[trigger] fields[i].bitwidth <= u32::MAX - 7
}

/// The names of a list of fields are pairwise distinct.
pub open spec fn distinct_names(s: Seq<(Seq<char>, DecodedSpec)>) -> bool {
    forall|i: int, j: int| 0 <= i < j < s.len() ==> s[i].0 != s[j].0
}

/// With pairwise distinct names, `first_index_named` finds the one field
/// carrying the name, or none carries it.
proof fn lemma_first_index_named(s: Seq<(Seq<char>, DecodedSpec)>, name: Seq<char>)
    ensures
        -1 <= first_index_named(s, name) < s.len(),
        first_index_named(s, name) >= 0 ==> s[first_index_named(s, name)].0 == name,
        first_index_named(s, name) < 0 ==> forall|j: int| 0 <= j < s.len() ==> s[j].0 != name,
        distinct_names(s) && first_index_named(s, name) >= 0 ==> forall|j: int|
            0 <= j < s.len() && s[j].0 == name ==> j == first_index_named(s, name),
    decreases s.len(),
{
    if s.len() > 0 {
        lemma_first_index_named(s.drop_last(), name);
        assert forall|j: int| 0 <= j < s.len() - 1 implies s.drop_last()[j] == s[j] by {}
    }
}

/// Setting a field keeps the names pairwise distinct.
proof fn lemma_set_field_distinct(s: Seq<(Seq<char>, DecodedSpec)>, name: Seq<char>, v: DecodedSpec)
    requires
        distinct_names(s),
    ensures
        distinct_names(set_field(s, name, v)),
{
    lemma_first_index_named(s, name);
}

/// The field list after setting `name` to `v` in `kf`: the value is replaced
/// where a field of that name exists, else the field is added.
fn set_key_field(kf: &mut Vec<KeyField>, name: &String, v: DecodedValue)
    requires
        distinct_names(key_fields_view(old(kf)@)),
    ensures
        key_fields_view(final(kf)@) == set_field(key_fields_view(old(kf)@), name@, v@),
        distinct_names(key_fields_view(final(kf)@)),
{
    let ghost before = key_fields_view(kf@);
    proof {
        lemma_first_index_named(before, name@);
        lemma_set_field_distinct(before, name@, v@);
    }
    let mut i: usize = 0;
    while i < kf.len()
        invariant
            i <= kf@.len(),
            kf@ == old(kf)@,
            before == key_fields_view(kf@),
            distinct_names(before),
            forall|j: int| 0 <= j < i ==> before[j].0 != name@,
        decreases kf@.len() - i,
    {
        assert(before[i as int].0 == kf@[i as int].name@);
        if str_eq(kf[i].name.as_str(), name.as_str()) {
            proof {
                lemma_first_index_named(before, name@);
            }
            assert(before[i as int].0 == name@);
            assert(first_index_named(before, name@) == i);
            kf.set(i, KeyField { name: name.clone(), value: v });
            assert(key_fields_view(kf@) =~= set_field(before, name@, v@));
            return;
        }
        i = i + 1;
    }
    proof {
        lemma_first_index_named(before, name@);
    }
    assert(first_index_named(before, name@) < 0);
    kf.push(KeyField { name: name.clone(), value: v });
    assert(key_fields_view(kf@) =~= set_field(before, name@, v@));
}

/// Decodes key bytes field by field along the schema's key fields.
pub fn decode_key_fields(key: &[u8], fields: &[KeyFieldSchema]) -> (r: Vec<KeyField>)
    requires
        widths_fit(fields@),
    ensures
        key_fields_view(r@) == decoded_fields(key@, fields@, fields@.len()),
        distinct_names(key_fields_view(r@)),
{
    let mut r: Vec<KeyField> = Vec::new();
    let mut offset: usize = 0;
    let mut k: usize = 0;
    while k < fields.len()
        invariant
            k <= fields@.len(),
            widths_fit(fields@),
            offset as int == if field_offset(fields@, k as nat) <= usize::MAX {
                field_offset(fields@, k as nat) as int
            } else {
                usize::MAX as int
            },
            key_fields_view(r@) == decoded_fields(key@, fields@, k as nat),
            distinct_names(key_fields_view(r@)),
        decreases fields@.len() - k,
    {
        let f = &fields[k];
        assert(f.bitwidth <= u32::MAX - 7);
        let ghost prev = decoded_fields(key@, fields@, k as nat);
        let ghost off = field_offset(fields@, k as nat);
        let ghost n = field_byte_len(fields@[k as int].bitwidth);
        let ghost fits = off + n <= key@.len();
        assert(decoded_fields(key@, fields@, (k + 1) as nat) == if fits {
            set_field(
                prev,
                fields@[k as int].name@,
                decode_key_spec(
                    key@.subrange(off as int, (off + n) as int),
                    lowercase_text(fields@[k as int].ty@),
                    fields@[k as int].bitwidth,
                ),
            )
        } else {
            prev
        });
        assert(field_offset(fields@, (k + 1) as nat) == off + field_byte_len(fields@[k as int].bitwidth));
        let w: u32 = (f.bitwidth + 7) / 8;
        let byte_len: usize = if w < 1 { 1 } else { w as usize };
        assert(byte_len == field_byte_len(f.bitwidth));
        let klen = key.len();
        assert(key@.len() == klen);
        match offset.checked_add(byte_len) {
            Some(end) => {
                if end <= key.len() {
                    assert(off == offset);
                    assert(fits);
                    let chunk = slice_subrange(key, offset, end);
                    let v = decode_key_field(chunk, f.ty.as_str(), f.bitwidth);
                    set_key_field(&mut r, &f.name, v);
                } else {
                    assert(!fits);
                }
            },
            None => {
                assert(!fits);
            },
        }
        offset = offset.saturating_add(byte_len);
        k = k + 1;
        assert(key_fields_view(r@) == decoded_fields(key@, fields@, k as nat));
    }
    r
}

/// The parameter a reported parameter reads as: its size is the length the
/// library reported.
pub open spec fn param_of(r: RawParam) -> Param {
    Param { name: r.name, value: r.value, size: r.len as usize, p4_type: r.p4_type }
}

/// An action was read from what the library reported for it.
pub open spec fn action_of(a: Action, r: RawAction) -> bool {
    &&& a.name == r.name
    &&& a.index == r.index
    &&& a.params@ == r.params@.map_values(|p: RawParam| param_of(p))
}

/// The table an entry reads as belonging to: the one the library named, or,
/// where it named none, the table the request was made on.
pub open spec fn effective_table(reported: Seq<char>, table: Seq<char>) -> Seq<char> {
    if reported.len() == 0 {
        table
    } else {
        reported
    }
}

/// The schema table used to decode an entry's key: the pipeline's table of
/// the entry's name, where key, pipeline name and table name are all
/// non-empty and a schema is at hand.
pub open spec fn decoding_table(
    key: Seq<u8>,
    pipeline: Seq<char>,
    table: Seq<char>,
    schema: Option<&PipelineSchema>,
) -> Option<TableSchema> {
    match schema {
        Some(ps) => {
            let i = last_index_named(table_names(ps.tables@), table);
            if key.len() > 0 && pipeline.len() > 0 && table.len() > 0 && i >= 0 {
                Some(ps.tables@[i])
            } else {
                None
            }
        },
        None => None,
    }
}

/// The key fields of an entry: those decoded along its schema table, or,
/// where that gives none and the key is not empty, the whole key as raw
/// bytes under the name `raw`.
pub open spec fn entry_key_fields(key: Seq<u8>, table: Option<TableSchema>) -> Seq<
    (Seq<char>, DecodedSpec),
> {
    let decoded = match table {
        Some(t) => decoded_fields(key, t.key_fields@, t.key_fields@.len()),
        None => Seq::empty(),
    };
    if decoded.len() == 0 && key.len() > 0 {
        seq![("raw"@, DecodedSpec::Raw(key))]
    } else {
        decoded
    }
}

/// A parameter as read from what the library reported.
pub fn parse_param(raw: RawParam) -> (p: Param)
    ensures
        p == param_of(raw),
{
    Param { name: raw.name, value: raw.value, size: raw.len as usize, p4_type: raw.p4_type }
}

/// The parameters read from what the library reported, in order.
fn parse_params(raw: Vec<RawParam>) -> (r: Vec<Param>)
    ensures
        r@ == raw@.map_values(|p: RawParam| param_of(p)),
{
    let mut r: Vec<Param> = Vec::new();
    let mut rest = raw;
    let ghost all = rest@;
    while rest.len() > 0
        invariant
            r@.len() + rest@.len() == all.len(),
            rest@ == all.skip(r@.len() as int),
            r@ == all.take(r@.len() as int).map_values(|p: RawParam| param_of(p)),
        decreases rest@.len(),
    {
        let ghost k = r@.len() as int;
        let p = rest.remove(0);
        assert(p == all[k]);
        r.push(parse_param(p));
        assert(rest@ =~= all.skip(k + 1));
        assert(r@ =~= all.take(k + 1).map_values(|p: RawParam| param_of(p)));
    }
    assert(all.take(all.len() as int) =~= all);
    r
}

/// An action as read from what the library reported.
pub fn parse_action(raw: RawAction) -> (a: Action)
    ensures
        action_of(a, raw),
{
    let RawAction { name, index, params } = raw;
    Action { name, index, params: parse_params(params) }
}

/// The actions read from what the library reported, in order.
fn parse_actions(raw: Vec<RawAction>) -> (r: Vec<Action>)
    ensures
        r@.len() == raw@.len(),
        forall|i: int| 0 <= i < raw@.len() ==> action_of(#[trigger] r@[i], raw@[i]),
{
    let mut r: Vec<Action> = Vec::new();
    let mut rest = raw;
    let ghost all = rest@;
    while rest.len() > 0
        invariant
            r@.len() + rest@.len() == all.len(),
            rest@ == all.skip(r@.len() as int),
            forall|i: int| 0 <= i < r@.len() ==> action_of(#[trigger] r@[i], all[i]),
        decreases rest@.len(),
    {
        let ghost k = r@.len() as int;
        let a = rest.remove(0);
        assert(a == all[k]);
        r.push(parse_action(a));
        assert(rest@ =~= all.skip(k + 1));
    }
    r
}

/// A table entry as read from what the library reported for a request on
/// `table` of `pipeline`. Its table is the one the library named, or the
/// request's where the library named none; its key is decoded along the
/// pipeline schema's table of that name when one is at hand (else kept
/// whole as raw bytes); its mask is absent where the library gave none;
/// its other attributes are those reported.
pub fn parse_entry(
    raw: RawTableEntry,
    pipeline: &str,
    table: &str,
    schema: Option<&PipelineSchema>,
) -> (e: TableEntry)
    requires
        decoding_table(raw.key@, pipeline@, effective_table(raw.name@, table@), schema) matches Some(
            t,
        ) ==> widths_fit(t.key_fields@),
    ensures
        e.table_name@ == effective_table(raw.name@, table@),
        e.priority == raw.priority,
        e.key@ == raw.key@,
        e.key_size == raw.key_size,
        key_fields_view(e.key_fields@) == entry_key_fields(
            raw.key@,
            decoding_table(raw.key@, pipeline@, effective_table(raw.name@, table@), schema),
        ),
        distinct_names(key_fields_view(e.key_fields@)),
        raw.mask@.len() == 0 ==> e.mask is None,
        raw.mask@.len() > 0 ==> (e.mask matches Some(m) && m@ == raw.mask@),
        e.permissions == raw.permissions,
        e.dynamic == (raw.dynamic != 0),
        e.aging_ms == raw.aging_ms,
        e.actions@.len() == raw.actions@.len(),
        forall|i: int| 0 <= i < raw.actions@.len() ==> action_of(#[trigger] e.actions@[i], raw.actions@[i]),
{
    let ghost eff_spec = effective_table(raw.name@, table@);
    let ghost dt = decoding_table(raw.key@, pipeline@, eff_spec, schema);
    let RawTableEntry { name, priority, key, key_size, mask, permissions, dynamic, aging_ms, actions } =
        raw;
    let effective: String = if name.as_str().is_empty() {
        owned(table)
    } else {
        name
    };
    assert(effective@ == eff_spec);
    let mut key_fields: Vec<KeyField> = Vec::new();
    if !key.is_empty() && !pipeline.is_empty() && !effective.as_str().is_empty() {
        match schema {
            Some(ps) => {
                match ps.get_table(effective.as_str()) {
                    Some(t) => {
                        assert(dt == Some(*t));
                        key_fields = decode_key_fields(key.as_slice(), t.key_fields.as_slice());
                    },
                    None => {},
                }
            },
            None => {},
        }
    }
    assert(key_fields_view(key_fields@) == match dt {
        Some(t) => decoded_fields(key@, t.key_fields@, t.key_fields@.len()),
        None => Seq::empty(),
    });
    if key_fields.len() == 0 && !key.is_empty() {
        key_fields.push(KeyField { name: String::from_str("raw"), value: DecodedValue::Raw(key.clone()) });
        assert(key_fields_view(key_fields@) =~= seq![("raw"@, DecodedSpec::Raw(key@))]);
    }
    let mask_opt: Option<Vec<u8>> = if mask.is_empty() {
        None
    } else {
        Some(mask)
    };
    TableEntry {
        table_name: effective,
        priority,
        key,
        key_size,
        key_fields,
        mask: mask_opt,
        permissions,
        dynamic: dynamic != 0,
        aging_ms,
        actions: parse_actions(actions),
    }
}

/// Every entry of a batch reported for a request on `table` of `pipeline`
/// can be decoded: the key fields of its schema table, where one is used,
/// all leave room to round their width up to whole bytes.
pub open spec fn batch_decodable(
    raw: Seq<RawTableEntry>,
    pipeline: Seq<char>,
    table: Seq<char>,
    schema: Option<&PipelineSchema>,
) -> bool {
    forall|i: int|
        0 <= i < raw.len() ==> (decoding_table(
            #[trigger] raw[i].key@,
            pipeline,
            effective_table(raw[i].name@, table),
            schema,
        ) matches Some(t) ==> widths_fit(t.key_fields@))
}

/// Whether every key field's width leaves room to round it up to whole bytes.
fn fields_fit(fields: &Vec<KeyFieldSchema>) -> (r: bool)
    ensures
        r == widths_fit(fields@),
{
    let mut i: usize = 0;
    while i < fields.len()
        invariant
            i <= fields@.len(),
            forall|j: int| 0 <= j < i ==> #[trigger] fields@[j].bitwidth <= u32::MAX - 7,
        decreases fields@.len() - i,
    {
        if fields[i].bitwidth > u32::MAX - 7 {
            return false;
        }
        i = i + 1;
    }
    true
}

/// Whether the key of one reported entry can be decoded (see
/// [`batch_decodable`]).
fn entry_decodable(e: &RawTableEntry, pipeline: &str, table: &str, schema: Option<&PipelineSchema>) -> (r: bool)
    ensures
        r == (decoding_table(e.key@, pipeline@, effective_table(e.name@, table@), schema) matches Some(
            t,
        ) ==> widths_fit(t.key_fields@)),
{
    let ghost eff = effective_table(e.name@, table@);
    let effective: &str = if e.name.as_str().is_empty() {
        table
    } else {
        e.name.as_str()
    };
    assert(effective@ == eff);
    if e.key.is_empty() || pipeline.is_empty() || effective.is_empty() {
        return true;
    }
    match schema {
        Some(ps) => match ps.get_table(effective) {
            Some(t) => fields_fit(&t.key_fields),
            None => true,
        },
        None => true,
    }
}

/// Whether every entry of a batch reported for a request on `table` of
/// `pipeline` can be decoded, so that `parse_obj` may read it.
pub fn decodable(
    raw: &Vec<RawTableEntry>,
    pipeline: &str,
    table: &str,
    schema: Option<&PipelineSchema>,
) -> (r: bool)
    ensures
        r == batch_decodable(raw@, pipeline@, table@, schema),
{
    let mut i: usize = 0;
    while i < raw.len()
        invariant
            i <= raw@.len(),
            forall|j: int|
                0 <= j < i ==> (decoding_table(
                    #[trigger] raw@[j].key@,
                    pipeline@,
                    effective_table(raw@[j].name@, table@),
                    schema,
                ) matches Some(t) ==> widths_fit(t.key_fields@)),
        decreases raw@.len() - i,
    {
        if !entry_decodable(&raw[i], pipeline, table, schema) {
            return false;
        }
        i = i + 1;
    }
    true
}

/// The entries read from what the library reported for a request on `table`
/// of `pipeline`, each as `parse_entry` reads it, in order.
pub fn parse_obj(
    raw: Vec<RawTableEntry>,
    pipeline: &str,
    table: &str,
    schema: Option<&PipelineSchema>,
) -> (r: Vec<TableEntry>)
    requires
        forall|i: int|
            0 <= i < raw@.len() ==> (decoding_table(
                #[trigger] raw@[i].key@,
                pipeline@,
                effective_table(raw@[i].name@, table@),
                schema,
            ) matches Some(t) ==> widths_fit(t.key_fields@)),
    ensures
        r@.len() == raw@.len(),
        forall|i: int|
            0 <= i < raw@.len() ==> {
                let e = #[trigger] r@[i];
                let w = raw@[i];
                &&& e.table_name@ == effective_table(w.name@, table@)
                &&& e.priority == w.priority
                &&& e.key@ == w.key@
                &&& e.key_size == w.key_size
                &&& key_fields_view(e.key_fields@) == entry_key_fields(
                    w.key@,
                    decoding_table(w.key@, pipeline@, effective_table(w.name@, table@), schema),
                )
                &&& (w.mask@.len() == 0 ==> e.mask is None)
                &&& (w.mask@.len() > 0 ==> (e.mask matches Some(m) && m@ == w.mask@))
                &&& e.permissions == w.permissions
                &&& e.dynamic == (w.dynamic != 0)
                &&& e.aging_ms == w.aging_ms
                &&& e.actions@.len() == w.actions@.len()
                &&& forall|j: int|
                    0 <= j < w.actions@.len() ==> action_of(#[trigger] e.actions@[j], w.actions@[j])
            },
{
    let mut r: Vec<TableEntry> = Vec::new();
    let mut rest = raw;
    let ghost all = rest@;
    while rest.len() > 0
        invariant
            r@.len() + rest@.len() == all.len(),
            rest@ == all.skip(r@.len() as int),
            forall|i: int|
                0 <= i < all.len() ==> (decoding_table(
                    #[trigger] all[i].key@,
                    pipeline@,
                    effective_table(all[i].name@, table@),
                    schema,
                ) matches Some(t) ==> widths_fit(t.key_fields@)),
            forall|i: int|
                0 <= i < r@.len() ==> {
                    let e = #[trigger] r@[i];
                    let w = all[i];
                    &&& e.table_name@ == effective_table(w.name@, table@)
                    &&& e.priority == w.priority
                    &&& e.key@ == w.key@
                    &&& e.key_size == w.key_size
                    &&& key_fields_view(e.key_fields@) == entry_key_fields(
                        w.key@,
                        decoding_table(w.key@, pipeline@, effective_table(w.name@, table@), schema),
                    )
                    &&& (w.mask@.len() == 0 ==> e.mask is None)
                    &&& (w.mask@.len() > 0 ==> (e.mask matches Some(m) && m@ == w.mask@))
                    &&& e.permissions == w.permissions
                    &&& e.dynamic == (w.dynamic != 0)
                    &&& e.aging_ms == w.aging_ms
                    &&& e.actions@.len() == w.actions@.len()
                    &&& forall|j: int|
                        0 <= j < w.actions@.len() ==> action_of(
                            #[trigger] e.actions@[j],
                            w.actions@[j],
                        )
                },
        decreases rest@.len(),
    {
        let ghost k = r@.len() as int;
        let w = rest.remove(0);
        assert(w == all[k]);
        r.push(parse_entry(w, pipeline, table, schema));
        assert(rest@ =~= all.skip(k + 1));
    }
    r
}

/// An extern entry as read from what the library reported.
pub fn parse_ext_entry(raw: RawExternEntry) -> (e: ExternEntry)
    ensures
        e.kind == raw.kind,
        e.instance == raw.instance,
        e.key == raw.key,
        e.ext_id == raw.ext_id,
        e.inst_id == raw.inst_id,
        e.params@ == raw.params@.map_values(|p: RawParam| param_of(p)),
{
    let RawExternEntry { kind, instance, key, ext_id, inst_id, params } = raw;
    ExternEntry { kind, instance, key, ext_id, inst_id, params: parse_params(params) }
}

/// The extern entries read from what the library reported, in order.
pub fn parse_ext_obj(raw: Vec<RawExternEntry>) -> (r: Vec<ExternEntry>)
    ensures
        r@.len() == raw@.len(),
        forall|i: int|
            0 <= i < raw@.len() ==> {
                let e = #[trigger] r@[i];
                let w = raw@[i];
                &&& e.kind == w.kind
                &&& e.instance == w.instance
                &&& e.key == w.key
                &&& e.ext_id == w.ext_id
                &&& e.inst_id == w.inst_id
                &&& e.params@ == w.params@.map_values(|p: RawParam| param_of(p))
            },
{
    let mut r: Vec<ExternEntry> = Vec::new();
    let mut rest = raw;
    let ghost all = rest@;
    while rest.len() > 0
        invariant
            r@.len() + rest@.len() == all.len(),
            rest@ == all.skip(r@.len() as int),
            forall|i: int|
                0 <= i < r@.len() ==> {
                    let e = #[trigger] r@[i];
                    let w = all[i];
                    &&& e.kind == w.kind
                    &&& e.instance == w.instance
                    &&& e.key == w.key
                    &&& e.ext_id == w.ext_id
                    &&& e.inst_id == w.inst_id
                    &&& e.params@ == w.params@.map_values(|p: RawParam| param_of(p))
                },
        decreases rest@.len(),
    {
        let ghost k = r@.len() as int;
        let w = rest.remove(0);
        assert(w == all[k]);
        r.push(parse_ext_entry(w));
        assert(rest@ =~= all.skip(k + 1));
    }
    r
}

} // verus!
