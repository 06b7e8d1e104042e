//! A plain model of the primitive values that the engine reads and writes:
//! the subset of the type system that message sections and frame fields use.

use vstd::prelude::*;

verus! {

/// A primitive value of the protocol's type system.
///
/// Strings and symbols are held as Rust strings; composites and maps are
/// modelled at the section level, so `Value` itself is flat.
#[derive(Debug)]
pub enum Value {
    Null,
    Bool(bool),
    Ubyte(u8),
    Ushort(u16),
    Uint(u32),
    Ulong(u64),
    /// Milliseconds since the epoch.
    Timestamp(i64),
    String(String),
    Symbol(String),
    Binary(Vec<u8>),
    /// A 16-byte universally unique identifier.
    Uuid(Vec<u8>),
}

/// The mathematical model of a [`Value`].
pub enum ValueV {
    Null,
    Bool(bool),
    Ubyte(u8),
    Ushort(u16),
    Uint(u32),
    Ulong(u64),
    Timestamp(i64),
    String(Seq<char>),
    Symbol(Seq<char>),
    Binary(Seq<u8>),
    Uuid(Seq<u8>),
}

impl View for Value {
    type V = ValueV;

    open spec fn view(&self) -> ValueV {
        match self {
            Value::Null => ValueV::Null,
            Value::Bool(b) => ValueV::Bool(*b),
            Value::Ubyte(n) => ValueV::Ubyte(*n),
            Value::Ushort(n) => ValueV::Ushort(*n),
            Value::Uint(n) => ValueV::Uint(*n),
            Value::Ulong(n) => ValueV::Ulong(*n),
            Value::Timestamp(n) => ValueV::Timestamp(*n),
            Value::String(s) => ValueV::String(s@),
            Value::Symbol(s) => ValueV::Symbol(s@),
            Value::Binary(b) => ValueV::Binary(b@),
            Value::Uuid(b) => ValueV::Uuid(b@),
        }
    }
}

/// A described map's entries, in wire order: keys must be unique.
pub type Fields = Vec<(String, Value)>;

/// The model of one field-table entry.
pub open spec fn field_entry_view(p: (String, Value)) -> (Seq<char>, ValueV) {
    (p.0@, p.1@)
}

/// The model of a field table: key view and value view, in order.
pub open spec fn fields_view(s: Seq<(String, Value)>) -> Seq<(Seq<char>, ValueV)> {
    s.map_values(|p: (String, Value)| field_entry_view(p))
}

/// Whether a key occurs in a field table.
pub open spec fn fields_has_key(s: Seq<(String, Value)>, key: Seq<char>) -> bool {
    exists|i: int| 0 <= i < s.len() && s[i].0@ == key
}

/// Copies a byte string, preserving its contents exactly.
pub fn copy_bytes(v: &Vec<u8>) -> (r: Vec<u8>)
    ensures
        r@ == v@,
{
    let r = v.clone();
    assert(forall|i: int| 0 <= i < v@.len() ==> r@[i] == v@[i]);
    assert(r@ =~= v@);
    r
}

impl Value {
    /// Copies the value, preserving its model exactly.
    pub fn deep_copy(&self) -> (r: Value)
        ensures
            r@ == self@,
    {
        match self {
            Value::Null => Value::Null,
            Value::Bool(b) => Value::Bool(*b),
            Value::Ubyte(n) => Value::Ubyte(*n),
            Value::Ushort(n) => Value::Ushort(*n),
            Value::Uint(n) => Value::Uint(*n),
            Value::Ulong(n) => Value::Ulong(*n),
            Value::Timestamp(n) => Value::Timestamp(*n),
            Value::String(s) => Value::String(s.clone()),
            Value::Symbol(s) => Value::Symbol(s.clone()),
            Value::Binary(b) => Value::Binary(copy_bytes(b)),
            Value::Uuid(b) => Value::Uuid(copy_bytes(b)),
        }
    }
}

/// Copies a field table, preserving its model exactly.
pub fn copy_fields(f: &Fields) -> (r: Fields)
    ensures
        fields_view(r@) == fields_view(f@),
{
    let mut r: Fields = Vec::new();
    let mut i: usize = 0;
    while i < f.len()
        invariant
            i <= f.len(),
            r@.len() == i,
            forall|j: int|
                0 <= j < i ==> #[trigger] field_entry_view(r@[j]) == field_entry_view(f@[j]),
        decreases f.len() - i,
    {
        let (k, v) = &f[i];
        let kc = k.clone();
        let vc = v.deep_copy();
        assert(kc@ == f@[i as int].0@);
        assert(vc@ == f@[i as int].1@);
        r.push((kc, vc));
        i = i + 1;
    }
    assert(fields_view(r@) =~= fields_view(f@));
    r
}

/// Looks up a key in a field table.
pub fn fields_get<'a>(f: &'a Fields, key: &String) -> (r: Option<&'a Value>)
    ensures
        (match r {
            Some(v) => fields_has_key(f@, key@),
            None => !fields_has_key(f@, key@),
        }),
{
    let mut i: usize = 0;
    while i < f.len()
        invariant
            i <= f.len(),
            forall|j: int| 0 <= j < i ==> f@[j].0@ != key@,
        decreases f.len() - i,
    {
        if f[i].0 == *key {
            assert(0 <= i < f@.len() && f@[i as int].0@ == key@);
            return Some(&f[i].1);
        }
        i = i + 1;
    }
    None
}

/// Removes every entry with the given key from a field table.
pub fn fields_remove(f: &mut Fields, key: &String)
    ensures
        fields_view(final(f)@) == fields_view(old(f)@).filter(
            |p: (Seq<char>, ValueV)| p.0 != key@,
        ),
{
    let ghost orig = f@;
    let mut r: Fields = Vec::new();
    let mut i: usize = 0;
    while i < f.len()
        invariant
            i <= f.len(),
            f@ == orig,
            fields_view(r@) =~= fields_view(orig.take(i as int)).filter(
                |p: (Seq<char>, ValueV)| p.0 != key@,
            ),
        decreases f.len() - i,
    {
        proof {
            assert(fields_view(orig.take(i + 1 as int)).drop_last() =~= fields_view(
                orig.take(i as int),
            ));
            assert(fields_view(orig.take(i + 1 as int)).last() == field_entry_view(
                orig[i as int],
            ));
            reveal(Seq::filter);
        }
        let keep = !(f[i].0 == *key);
        if keep {
            let (k, v) = &f[i];
            r.push((k.clone(), v.deep_copy()));
            assert(fields_view(r@) =~= fields_view(orig.take(i as int)).filter(
                |p: (Seq<char>, ValueV)| p.0 != key@,
            ).push(field_entry_view(orig[i as int])));
        }
        assert(fields_view(r@) =~= fields_view(orig.take(i + 1 as int)).filter(
            |p: (Seq<char>, ValueV)| p.0 != key@,
        ));
        i = i + 1;
    }
    proof {
        assert(orig.take(orig.len() as int) =~= orig);
    }
    *f = r;
}

} // verus!
