//! What is kept in non-volatile storage, and what is changed in it.
//!
//! Storage is namespaces of keys. Nothing here reads or writes it: functions
//! say which keys are to be set or removed, in order, and others take what was
//! found under them.

use vstd::prelude::*;

use crate::text::same_text;

verus! {

/// The display settings and the port.
pub const NS_DISPLAY: &'static str = "disp_cfg";

/// The network credentials, and whether setup mode was asked for.
pub const NS_WIFI: &'static str = "wifi_cfg";

/// The portal credentials. A namespace of their own so that clearing another
/// cannot lock anyone out.
pub const NS_AUTH: &'static str = "sec_cfg";

/// What a freshly written image has to prove.
pub const NS_OTA: &'static str = "ota_cfg";

/// Sizes, in bytes, of the buffers that stored texts are read into. A text is
/// read together with a terminator, so it has to be shorter than its buffer;
/// one that is not is not found.
pub const MARQUEE_TEXT_BUF: usize = 257;

pub const SSID_BUF: usize = 64;

pub const WIFI_PASS_BUF: usize = 64;

pub const AUTH_USER_BUF: usize = 96;

pub const AUTH_PASS_BUF: usize = 160;

/// Size of the buffer into which a text is read to see whether it has changed.
pub const COMPARE_BUF: usize = 320;

/// A value in storage.
pub enum StoreValue {
    Text(String),
    Byte(u8),
    Word(u16),
}

/// A value in storage, by what it holds.
pub enum Value {
    Text(Seq<char>),
    Byte(u8),
    Word(u16),
}

impl View for StoreValue {
    type V = Value;

    open spec fn view(&self) -> Value {
        match self {
            StoreValue::Text(t) => Value::Text(t@),
            StoreValue::Byte(b) => Value::Byte(*b),
            StoreValue::Word(w) => Value::Word(*w),
        }
    }
}

/// A change to storage: a key and the value it is set to, or none if the key is
/// removed.
pub struct StoreOp {
    pub namespace: &'static str,
    pub key: &'static str,
    pub value: Option<StoreValue>,
}

/// A change to storage, by what it holds.
pub struct Op {
    pub namespace: Seq<char>,
    pub key: Seq<char>,
    pub value: Option<Value>,
}

impl View for StoreOp {
    type V = Op;

    open spec fn view(&self) -> Op {
        Op {
            namespace: self.namespace@,
            key: self.key@,
            value: match self.value {
                Some(v) => Some(v@),
                None => None,
            },
        }
    }
}

/// Changes by what they hold.
pub open spec fn ops_of(ops: Seq<StoreOp>) -> Seq<Op> {
    ops.map_values(|op: StoreOp| op@)
}

/// What storage holds.
pub type Store = Map<(Seq<char>, Seq<char>), Value>;

/// Storage takes a change. Its texts end at the first NUL, so it refuses one that
/// holds any.
pub open spec fn takes(value: Option<Value>) -> bool {
    match value {
        Some(Value::Text(t)) => !t.contains('\0'),
        _ => true,
    }
}

/// Storage after a change. One that it refuses leaves it as it is.
pub open spec fn changed(store: Store, op: Op) -> Store {
    if !takes(op.value) {
        store
    } else {
        match op.value {
            Some(v) => store.insert((op.namespace, op.key), v),
            None => store.remove((op.namespace, op.key)),
        }
    }
}

/// Storage after changes, one after the other.
pub open spec fn after(store: Store, ops: Seq<Op>) -> Store
    decreases ops.len(),
{
    if ops.len() == 0 {
        store
    } else {
        changed(after(store, ops.drop_last()), ops.last())
    }
}

/// What is found under a key of a namespace.
pub open spec fn lookup(store: Store, place: (Seq<char>, Seq<char>)) -> Option<Value> {
    if store.contains_key(place) {
        Some(store[place])
    } else {
        None
    }
}

/// A text that storage takes and that is found again in a buffer of `size`
/// bytes.
pub open spec fn fits(t: Seq<char>, size: usize) -> bool {
    &&& !t.contains('\0')
    &&& vstd::utf8::encode_utf8(t).len() < size
}

/// The text that is found under a key and fits a buffer of `size` bytes.
pub open spec fn found_text(
    store: Store,
    namespace: Seq<char>,
    key: Seq<char>,
    size: usize,
) -> Option<Seq<char>> {
    match lookup(store, (namespace, key)) {
        Some(Value::Text(t)) => if vstd::utf8::encode_utf8(t).len() < size {
            Some(t)
        } else {
            None
        },
        _ => None,
    }
}

/// The byte that is found under a key.
pub open spec fn found_byte(store: Store, namespace: Seq<char>, key: Seq<char>) -> Option<u8> {
    match lookup(store, (namespace, key)) {
        Some(Value::Byte(b)) => Some(b),
        _ => None,
    }
}

/// The 16-bit number that is found under a key.
pub open spec fn found_word(store: Store, namespace: Seq<char>, key: Seq<char>) -> Option<u16> {
    match lookup(store, (namespace, key)) {
        Some(Value::Word(w)) => Some(w),
        _ => None,
    }
}

/// A change that sets a key to a text.
pub open spec fn put_text(namespace: Seq<char>, key: Seq<char>, t: Seq<char>) -> Op {
    Op { namespace, key, value: Some(Value::Text(t)) }
}

/// A change that sets a key to a byte.
pub open spec fn put_byte(namespace: Seq<char>, key: Seq<char>, b: u8) -> Op {
    Op { namespace, key, value: Some(Value::Byte(b)) }
}

/// A change that sets a key to a 16-bit number.
pub open spec fn put_word(namespace: Seq<char>, key: Seq<char>, w: u16) -> Op {
    Op { namespace, key, value: Some(Value::Word(w)) }
}

/// A change that removes a key.
pub open spec fn take_out(namespace: Seq<char>, key: Seq<char>) -> Op {
    Op { namespace, key, value: None }
}

/// Append a change that sets a key.
pub fn push_put(
    ops: &mut Vec<StoreOp>,
    namespace: &'static str,
    key: &'static str,
    value: StoreValue,
)
    ensures
        ops_of(final(ops)@) == ops_of(old(ops)@).push(
            Op { namespace: namespace@, key: key@, value: Some(value@) },
        ),
{
    ops.push(StoreOp { namespace, key, value: Some(value) });
    assert(ops_of(ops@) =~= ops_of(old(ops)@).push(
        Op { namespace: namespace@, key: key@, value: Some(value@) },
    ));
}

/// Append a change that removes a key.
pub fn push_take_out(ops: &mut Vec<StoreOp>, namespace: &'static str, key: &'static str)
    ensures
        ops_of(final(ops)@) == ops_of(old(ops)@).push(take_out(namespace@, key@)),
{
    ops.push(StoreOp { namespace, key, value: None });
    assert(ops_of(ops@) =~= ops_of(old(ops)@).push(take_out(namespace@, key@)));
}

/// The value under a key is the one to be set.
pub open spec fn is_current(current: Option<StoreValue>, value: StoreValue) -> bool {
    match current {
        Some(v) => v@ == value@,
        None => false,
    }
}

/// Whether a key has to be written: only if the stored value differs, sparing
/// the storage wear.
pub fn needs_write(current: &Option<StoreValue>, value: &StoreValue) -> (write: bool)
    ensures
        write == !is_current(*current, *value),
{
    match (current, value) {
        (Some(StoreValue::Text(a)), StoreValue::Text(b)) => !same_text(a.as_str(), b.as_str()),
        (Some(StoreValue::Byte(a)), StoreValue::Byte(b)) => *a != *b,
        (Some(StoreValue::Word(a)), StoreValue::Word(b)) => *a != *b,
        _ => true,
    }
}

/// Leaving a value alone that is already there is the same as writing it.
pub proof fn a_spared_write_changes_nothing(store: Store, op: Op)
    requires
        op.value is Some,
        store.contains_key((op.namespace, op.key)),
        store[(op.namespace, op.key)] == op.value->0,
    ensures
        changed(store, op) == store,
{
    assert(changed(store, op) =~= store);
}

/// Changes made in two rounds are the changes made in one.
pub proof fn changes_add_up(store: Store, first: Seq<Op>, second: Seq<Op>)
    ensures
        after(store, first + second) == after(after(store, first), second),
    decreases second.len(),
{
    if second.len() == 0 {
        assert(first + second =~= first);
    } else {
        changes_add_up(store, first, second.drop_last());
        assert((first + second).drop_last() =~= first + second.drop_last());
    }
}

/// A key that no change speaks of keeps its value, or stays missing.
pub proof fn other_keys_are_left_alone(store: Store, ops: Seq<Op>, place: (Seq<char>, Seq<char>))
    requires
        forall|i: int|
            0 <= i < ops.len() ==> ((#[trigger] ops[i]).namespace, ops[i].key) != place,
    ensures
        lookup(after(store, ops), place) == lookup(store, place),
    decreases ops.len(),
{
    if ops.len() > 0 {
        assert forall|i: int| 0 <= i < ops.drop_last().len() implies (
        (#[trigger] ops.drop_last()[i]).namespace, ops.drop_last()[i].key) != place by {
            assert(ops.drop_last()[i] == ops[i]);
        }
        other_keys_are_left_alone(store, ops.drop_last(), place);
        assert((ops.last().namespace, ops.last().key) != place);
    }
}

/// What at most one change makes of what was found under a key.
pub open spec fn overridden(
    ops: Seq<Op>,
    place: (Seq<char>, Seq<char>),
    before: Option<Value>,
) -> Option<Value> {
    if ops.len() == 1 && (ops[0].namespace, ops[0].key) == place && takes(ops[0].value) {
        ops[0].value
    } else {
        before
    }
}

/// No change, or just one, shows under its own key and under no other.
pub proof fn at_most_one_change(store: Store, ops: Seq<Op>, place: (Seq<char>, Seq<char>))
    requires
        ops.len() <= 1,
    ensures
        lookup(after(store, ops), place) == overridden(ops, place, lookup(store, place)),
{
    if ops.len() == 1 {
        assert(after(store, ops.drop_last()) == store);
    }
}

/// What changes leave under a key depends only on them and on what lay there.
pub proof fn changes_look_at_one_place(
    a: Store,
    b: Store,
    ops: Seq<Op>,
    place: (Seq<char>, Seq<char>),
)
    requires
        lookup(a, place) == lookup(b, place),
    ensures
        lookup(after(a, ops), place) == lookup(after(b, ops), place),
    decreases ops.len(),
{
    if ops.len() > 0 {
        changes_look_at_one_place(a, b, ops.drop_last(), place);
    }
}

/// Changes in other namespaces do not show.
pub proof fn other_namespaces_do_not_show(
    store: Store,
    first: Seq<Op>,
    ops: Seq<Op>,
    last: Seq<Op>,
    place: (Seq<char>, Seq<char>),
)
    requires
        forall|i: int| 0 <= i < first.len() ==> (#[trigger] first[i]).namespace != place.0,
        forall|i: int| 0 <= i < last.len() ==> (#[trigger] last[i]).namespace != place.0,
    ensures
        lookup(after(store, first + ops + last), place) == lookup(after(store, ops), place),
{
    changes_add_up(store, first, ops);
    changes_add_up(store, first + ops, last);
    other_keys_are_left_alone(store, first, place);
    changes_look_at_one_place(after(store, first), store, ops, place);
    other_keys_are_left_alone(after(store, first + ops), last, place);
}

/// A change is found where it was made: a value that is put under a key lies
/// there, and a key that is taken out is empty. Nothing else changes.
pub proof fn a_change_is_found_where_it_was_made(
    store: Store,
    namespace: Seq<char>,
    key: Seq<char>,
    t: Seq<char>,
    b: u8,
    w: u16,
    place: (Seq<char>, Seq<char>),
)
    requires
        !t.contains('\0'),
    ensures
        ({
            let at = (namespace, key);
            let put_in = changed(store, put_text(namespace, key, t));
            &&& lookup(put_in, at) == Some(Value::Text(t))
            &&& lookup(changed(store, put_byte(namespace, key, b)), at) == Some(Value::Byte(b))
            &&& lookup(changed(store, put_word(namespace, key, w)), at) == Some(Value::Word(w))
            &&& lookup(changed(store, take_out(namespace, key)), at) is None
            &&& place != at ==> lookup(put_in, place) == lookup(store, place)
            &&& place != at ==> lookup(changed(store, take_out(namespace, key)), place) == lookup(
                store,
                place,
            )
        }),
{
}

} // verus!
