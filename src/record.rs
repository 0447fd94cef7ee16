//! The borrowed view of one log record, attribute values, and the
//! allow-listed selection of resource attributes.
use vstd::prelude::*;

verus! {

/// A field or attribute value. A double is held as its IEEE-754 bit pattern;
/// kinds without an encoding of their own reach here already turned into text.
#[derive(Debug)]
pub enum AttributeValue {
    Str(String),
    Int(i64),
    Double(u64),
    Bool(bool),
}

/// One key/value pair, of a record or of the resource.
#[derive(Debug)]
pub struct Attribute {
    pub key: String,
    pub value: AttributeValue,
}

/// What the exporter reads of one log record, for the duration of one call.
#[derive(Debug)]
pub struct LogRecordView {
    /// OpenTelemetry severity number (1 to 24), or 0 when unset.
    pub severity: u8,
    pub target: String,
    /// The record's own event name, when it has one.
    pub event_name: Option<String>,
    /// Nanoseconds since the Unix epoch, when known.
    pub timestamp: Option<u64>,
    pub body: Option<AttributeValue>,
    /// Structured fields in the order the record holds them; keys may repeat.
    pub attributes: Vec<Attribute>,
}

impl AttributeValue {
    pub fn duplicate(&self) -> (r: AttributeValue)
        ensures
            r == *self,
    {
        match self {
            AttributeValue::Str(s) => AttributeValue::Str(s.clone()),
            AttributeValue::Int(i) => AttributeValue::Int(*i),
            AttributeValue::Double(d) => AttributeValue::Double(*d),
            AttributeValue::Bool(b) => AttributeValue::Bool(*b),
        }
    }
}

impl Attribute {
    pub fn new(key: &str, value: AttributeValue) -> (r: Attribute)
        ensures
            r.key@ == key@,
            r.value == value,
    {
        Attribute { key: String::from_str(key), value }
    }

    pub fn duplicate(&self) -> (r: Attribute)
        ensures
            r == *self,
    {
        Attribute { key: self.key.clone(), value: self.value.duplicate() }
    }
}

pub fn duplicate_optional_value(v: &Option<AttributeValue>) -> (r: Option<AttributeValue>)
    ensures
        r == *v,
{
    match v {
        Some(x) => Some(x.duplicate()),
        None => None,
    }
}

pub fn duplicate_attributes(v: &Vec<Attribute>) -> (r: Vec<Attribute>)
    ensures
        r@ == v@,
{
    let mut out: Vec<Attribute> = Vec::new();
    let mut i: usize = 0;
    while i < v.len()
        invariant
            i <= v@.len(),
            out@ == v@.subrange(0, i as int),
        decreases v@.len() - i,
    {
        out.push(v[i].duplicate());
        i = i + 1;
        assert(out@ =~= v@.subrange(0, i as int));
    }
    assert(out@ =~= v@);
    out
}

/// Whether `key` is one of `keys`.
pub open spec fn key_listed(keys: Seq<String>, key: Seq<char>) -> bool {
    exists|i: int| 0 <= i < keys.len() && (#[trigger] keys[i])@ == key
}

/// The attributes of `resource` whose keys are listed, in the resource's order.
pub open spec fn selected_attributes(resource: Seq<Attribute>, keys: Seq<String>) -> Seq<
    Attribute,
>
    decreases resource.len(),
{
    if resource.len() == 0 {
        Seq::empty()
    } else {
        let earlier = selected_attributes(resource.drop_last(), keys);
        if key_listed(keys, resource.last().key@) {
            earlier.push(resource.last())
        } else {
            earlier
        }
    }
}

pub fn is_key_listed(keys: &Vec<String>, key: &String) -> (r: bool)
    ensures
        r == key_listed(keys@, key@),
{
    let mut i: usize = 0;
    while i < keys.len()
        invariant
            i <= keys@.len(),
            forall|j: int| 0 <= j < i ==> (#[trigger] keys@[j])@ != key@,
        decreases keys@.len() - i,
    {
        if keys[i] == *key {
            return true;
        }
        i = i + 1;
    }
    false
}

/// Copies out the attributes of `resource` whose keys are in `keys`.
pub fn select_attributes(resource: &Vec<Attribute>, keys: &Vec<String>) -> (r: Vec<Attribute>)
    ensures
        r@ == selected_attributes(resource@, keys@),
{
    let mut out: Vec<Attribute> = Vec::new();
    let mut i: usize = 0;
    while i < resource.len()
        invariant
            i <= resource@.len(),
            out@ == selected_attributes(resource@.subrange(0, i as int), keys@),
        decreases resource@.len() - i,
    {
        let ghost prefix = resource@.subrange(0, i as int + 1);
        assert(prefix.drop_last() =~= resource@.subrange(0, i as int));
        if is_key_listed(keys, &resource[i].key) {
            out.push(resource[i].duplicate());
        }
        i = i + 1;
    }
    assert(resource@.subrange(0, resource@.len() as int) =~= resource@);
    out
}

/// Every selected attribute has a listed key, and every attribute of the
/// resource with a listed key is selected.
pub proof fn lemma_selection_exact(resource: Seq<Attribute>, keys: Seq<String>)
    ensures
        forall|a: Attribute| #[trigger]
            selected_attributes(resource, keys).contains(a) <==> (resource.contains(a)
                && key_listed(keys, a.key@)),
    decreases resource.len(),
{
    if resource.len() > 0 {
        let rest = resource.drop_last();
        lemma_selection_exact(rest, keys);
        assert forall|a: Attribute| #[trigger]
            resource.contains(a) <==> (rest.contains(a) || a == resource.last()) by {
            if resource.contains(a) {
                let i = choose|i: int| 0 <= i < resource.len() && resource[i] == a;
                if i < resource.len() - 1 {
                    assert(rest[i] == a);
                }
            }
            if rest.contains(a) {
                let i = choose|i: int| 0 <= i < rest.len() && rest[i] == a;
                assert(resource[i] == a);
            }
            if a == resource.last() {
                assert(resource[resource.len() - 1] == a);
            }
        }
        let earlier = selected_attributes(rest, keys);
        assert forall|a: Attribute| #[trigger]
            earlier.push(resource.last()).contains(a) <==> (earlier.contains(a) || a
                == resource.last()) by {
            let pushed = earlier.push(resource.last());
            if pushed.contains(a) {
                let i = choose|i: int| 0 <= i < pushed.len() && pushed[i] == a;
                if i < earlier.len() {
                    assert(earlier[i] == a);
                }
            }
            if earlier.contains(a) {
                let i = choose|i: int| 0 <= i < earlier.len() && earlier[i] == a;
                assert(pushed[i] == a);
            }
            if a == resource.last() {
                assert(pushed[earlier.len() as int] == a);
            }
        }
    }
}

} // verus!
