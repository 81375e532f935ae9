use vstd::prelude::*;
use crate::decode::{decode_param_spec, decode_param_value, display_text, DecodedValue};
use crate::text::{dec_text, lowercase_text, push_dec};

verus! {

/// A parameter of an action, or a data parameter of an extern, as read back.
#[derive(Debug, Clone)]
pub struct Param {
    pub name: String,
    pub value: Vec<u8>,
    pub size: usize,
    pub p4_type: String,
}

/// An action attached to a table entry.
#[derive(Debug, Clone)]
pub struct Action {
    pub name: String,
    pub index: u32,
    pub params: Vec<Param>,
}

/// A decoded key field of a table entry: the field's schema name and value.
#[derive(Debug, Clone)]
pub struct KeyField {
    pub name: String,
    pub value: DecodedValue,
}

/// A table entry as read back.
#[derive(Debug, Clone)]
pub struct TableEntry {
    pub table_name: String,
    pub priority: u32,
    /// Raw key bytes (for advanced use).
    pub key: Vec<u8>,
    pub key_size: u32,
    /// Decoded key fields, one per field name.
    pub key_fields: Vec<KeyField>,
    pub mask: Option<Vec<u8>>,
    pub permissions: u32,
    pub dynamic: bool,
    pub aging_ms: u32,
    pub actions: Vec<Action>,
}

/// An extern instance entry as read back.
#[derive(Debug, Clone)]
pub struct ExternEntry {
    pub kind: String,
    pub instance: String,
    pub key: u32,
    pub ext_id: u32,
    pub inst_id: u32,
    pub params: Vec<Param>,
}

/// The human-readable text of a parameter's value.
pub open spec fn param_value_text(p: Param) -> Seq<char> {
    display_text(decode_param_spec(p.value@, lowercase_text(p.p4_type@)))
}

/// `name=value` of a parameter.
pub open spec fn param_text(p: Param) -> Seq<char> {
    p.name@ + "="@ + param_value_text(p)
}

/// The texts of the first `k` parameters, separated by `, `.
pub open spec fn params_joined(ps: Seq<Param>, k: nat) -> Seq<char>
    decreases k,
{
    if k == 0 {
        Seq::empty()
    } else if k == 1 {
        param_text(ps[0])
    } else {
        params_joined(ps, (k - 1) as nat) + ", "@ + param_text(ps[k - 1])
    }
}

/// An action's name, followed by its parameters in brackets when it has any.
pub open spec fn action_text(a: Action) -> Seq<char> {
    if a.params@.len() == 0 {
        a.name@
    } else {
        a.name@ + "("@ + params_joined(a.params@, a.params@.len()) + ")"@
    }
}

/// `name: value` of a key field.
pub open spec fn key_field_text(f: KeyField) -> Seq<char> {
    f.name@ + ": "@ + display_text(f.value@)
}

/// The texts of the first `k` key fields, separated by `, `.
pub open spec fn key_fields_joined(fs: Seq<KeyField>, k: nat) -> Seq<char>
    decreases k,
{
    if k == 0 {
        Seq::empty()
    } else if k == 1 {
        key_field_text(fs[0])
    } else {
        key_fields_joined(fs, (k - 1) as nat) + ", "@ + key_field_text(fs[k - 1])
    }
}

/// The one-line summary of a table entry.
pub open spec fn table_entry_text(e: TableEntry) -> Seq<char> {
    "TableEntry(table="@ + e.table_name@ + ", key={"@ + key_fields_joined(
        e.key_fields@,
        e.key_fields@.len(),
    ) + "}, prio="@ + dec_text(e.priority as nat) + ")"@
}

impl Param {
    /// The value decoded by the parameter's type name.
    pub fn decoded(&self) -> (d: DecodedValue)
        ensures
            d@ == decode_param_spec(self.value@, lowercase_text(self.p4_type@)),
    {
        decode_param_value(self.value.as_slice(), self.p4_type.as_str())
    }

    /// The human-readable text of the parameter's decoded value.
    pub fn display_value(&self) -> (s: String)
        ensures
            s@ == param_value_text(*self),
    {
        self.decoded().to_display_string()
    }

    /// Appends `name=value`.
    fn push_text(&self, s: &mut String)
        ensures
            final(s)@ == old(s)@ + param_text(*self),
    {
        s.append(self.name.as_str());
        s.append("=");
        let v = self.display_value();
        s.append(v.as_str());
        assert(final(s)@ =~= old(s)@ + param_text(*self));
    }

    /// `name=value`, the value in its human-readable text.
    pub fn to_display_string(&self) -> (s: String)
        ensures
            s@ == param_text(*self),
    {
        let mut s = String::new();
        self.push_text(&mut s);
        assert(s@ =~= param_text(*self));
        s
    }
}

impl Action {
    /// The action's name, followed by `(name=value, ...)` of its parameters
    /// when it has any.
    pub fn to_display_string(&self) -> (s: String)
        ensures
            s@ == action_text(*self),
    {
        let mut s = String::new();
        s.append(self.name.as_str());
        if self.params.len() > 0 {
            s.append("(");
            let ghost start = s@;
            let mut i: usize = 0;
            while i < self.params.len()
                invariant
                    i <= self.params@.len(),
                    s@ == start + params_joined(self.params@, i as nat),
                decreases self.params@.len() - i,
            {
                let ghost before = s@;
                if i > 0 {
                    s.append(", ");
                }
                self.params[i].push_text(&mut s);
                proof {
                    if i == 0 {
                        assert(s@ =~= start + params_joined(self.params@, 1));
                    } else {
                        assert(s@ =~= start + params_joined(self.params@, (i + 1) as nat));
                    }
                }
                i = i + 1;
            }
            s.append(")");
        }
        assert(s@ =~= action_text(*self));
        s
    }
}

impl TableEntry {
    /// `TableEntry(table=..., key={name: value, ...}, prio=...)`.
    pub fn to_display_string(&self) -> (s: String)
        ensures
            s@ == table_entry_text(*self),
    {
        let mut s = String::from_str("TableEntry(table=");
        s.append(self.table_name.as_str());
        s.append(", key={");
        let ghost start = s@;
        let mut i: usize = 0;
        while i < self.key_fields.len()
            invariant
                i <= self.key_fields@.len(),
                s@ == start + key_fields_joined(self.key_fields@, i as nat),
            decreases self.key_fields@.len() - i,
        {
            if i > 0 {
                s.append(", ");
            }
            s.append(self.key_fields[i].name.as_str());
            s.append(": ");
            self.key_fields[i].value.push_text(&mut s);
            proof {
                if i == 0 {
                    assert(s@ =~= start + key_fields_joined(self.key_fields@, 1));
                } else {
                    assert(s@ =~= start + key_fields_joined(self.key_fields@, (i + 1) as nat));
                }
            }
            i = i + 1;
        }
        s.append("}, prio=");
        push_dec(&mut s, self.priority as u64);
        s.append(")");
        assert(s@ =~= table_entry_text(*self));
        s
    }
}

} // verus!
