//! The pool of containers behind a service, and the choice of one of them.

use vstd::prelude::*;
use vstd::utf8::encode_utf8;

verus! {

/// The pool of a service: the references of the containers that can serve it.
#[derive(Debug, PartialEq, Eq)]
pub struct LoadBalancer {
    pub image_name: String,
    pub containers: Vec<String>,
}

/// What a pool says, as plain text.
pub struct LoadBalancerView {
    pub image_name: Seq<char>,
    pub containers: Seq<Seq<char>>,
}

impl View for LoadBalancer {
    type V = LoadBalancerView;

    open spec fn view(&self) -> LoadBalancerView {
        LoadBalancerView {
            image_name: self.image_name@,
            containers: self.containers@.map_values(|reference: String| reference@),
        }
    }
}

/// The registry's record of one container: the handle by which the container
/// runtime knows it, and the port that it publishes.
#[derive(Debug, PartialEq, Eq)]
pub struct Container {
    pub container_id: String,
    pub public_port: usize,
}

/// What a container record says, as plain values.
pub struct ContainerView {
    pub container_id: Seq<char>,
    pub public_port: usize,
}

impl View for Container {
    type V = ContainerView;

    open spec fn view(&self) -> ContainerView {
        ContainerView { container_id: self.container_id@, public_port: self.public_port }
    }
}

/// The outcome of choosing a container from a pool.
#[derive(Debug, Clone, Copy, PartialEq, Eq)]
pub enum Selection {
    /// The key of the chosen container's record, and the cursor for the next
    /// choice from this pool.
    Picked { key: [u8; 12], next_cursor: usize },
    /// The reference whose turn it was is no key of a record; the cursor has
    /// moved past it.
    Malformed { next_cursor: usize },
    /// The pool holds no container.
    Empty,
}

/// The outcome of a choice, with the key as its bytes.
pub enum SelectionView {
    Picked { key: Seq<u8>, next_cursor: usize },
    Malformed { next_cursor: usize },
    Empty,
}

impl View for Selection {
    type V = SelectionView;

    open spec fn view(&self) -> SelectionView {
        match *self {
            Selection::Picked { key, next_cursor } => SelectionView::Picked {
                key: key@,
                next_cursor,
            },
            Selection::Malformed { next_cursor } => SelectionView::Malformed { next_cursor },
            Selection::Empty => SelectionView::Empty,
        }
    }
}

/// The value of a hexadecimal digit, in either case.
pub open spec fn hex_value(b: u8) -> Option<int> {
    if 48 <= b <= 57 {
        Some(b - 48)
    } else if 97 <= b <= 102 {
        Some(b - 97 + 10)
    } else if 65 <= b <= 70 {
        Some(b - 65 + 10)
    } else {
        None
    }
}

/// Whether `text` is the key of a record in writing: twenty-four hexadecimal
/// digits.
pub open spec fn is_record_key(text: Seq<u8>) -> bool {
    text.len() == 24 && forall|i: int| 0 <= i < 24 ==> hex_value(#[trigger] text[i]) is Some
}

/// The byte at `i` of the key that `text` writes: two digits, the high one
/// first.
pub open spec fn record_key_byte(text: Seq<u8>, i: int) -> int {
    16 * hex_value(text[2 * i]).unwrap() + hex_value(text[2 * i + 1]).unwrap()
}

/// The twelve bytes of the key that `text` writes.
pub open spec fn record_key(text: Seq<u8>) -> Seq<u8> {
    Seq::new(12, |i: int| record_key_byte(text, i) as u8)
}

/// The position in a pool of `len` containers whose turn it is at `cursor`.
pub open spec fn turn(len: int, cursor: int) -> int
    recommends
        len > 0,
{
    cursor % len
}

/// The cursor after the choice at `cursor` from a pool of `len` containers.
pub open spec fn cursor_after(len: int, cursor: int) -> int
    recommends
        len > 0,
{
    (turn(len, cursor) + 1) % len
}

/// The cursor after `turns` choices in a row that began at `cursor`.
pub open spec fn cursor_after_turns(len: int, cursor: int, turns: nat) -> int
    decreases turns,
{
    if turns == 0 {
        cursor
    } else {
        cursor_after(len, cursor_after_turns(len, cursor, (turns - 1) as nat))
    }
}

/// Choices in a row go round the pool: after `turns` choices it is the turn
/// of the container `turns` places further on, counted round the end. So of
/// any `len` choices in a row, each container gets one.
pub proof fn rotation_takes_turns(len: int, cursor: int, turns: nat)
    requires
        len > 0,
        cursor >= 0,
    ensures
        turn(len, cursor_after_turns(len, cursor, turns)) == (cursor + turns) % len,
    decreases turns,
{
    if turns > 0 {
        let before = cursor_after_turns(len, cursor, (turns - 1) as nat);
        rotation_takes_turns(len, cursor, (turns - 1) as nat);
        vstd::arithmetic::div_mod::lemma_mod_twice(before % len + 1, len);
        vstd::arithmetic::div_mod::lemma_add_mod_noop(cursor + turns - 1, 1, len);
        vstd::arithmetic::div_mod::lemma_mod_twice(cursor + turns - 1, len);
        if len == 1 {
            assert(1int % len == 0);
        } else {
            vstd::arithmetic::div_mod::lemma_small_mod(1, len as nat);
        }
    }
}

/// What choosing from `pool` at `cursor` gives.
pub open spec fn selected(pool: LoadBalancerView, cursor: int) -> SelectionView {
    let len = pool.containers.len() as int;
    if len == 0 {
        SelectionView::Empty
    } else {
        let text = encode_utf8(pool.containers[turn(len, cursor)]);
        let next = cursor_after(len, cursor) as usize;
        if is_record_key(text) {
            SelectionView::Picked { key: record_key(text), next_cursor: next }
        } else {
            SelectionView::Malformed { next_cursor: next }
        }
    }
}

/// Reads the key of a record from its writing, by
/// `mongodb::bson::oid::ObjectId::parse_str` and `ObjectId::bytes`. The
/// parser accepts exactly the texts of twenty-four hexadecimal digits, upper
/// or lower case, and decodes each pair of digits to one byte, the high digit
/// first; any other text is an error, which is given back as `None`.
#[verifier::external_body]
fn parse_record_key(reference: &str) -> (key: Option<[u8; 12]>)
    ensures
        key is Some <==> is_record_key(encode_utf8(reference@)),
        key matches Some(bytes) ==> bytes@ == record_key(encode_utf8(reference@)),
{
    match mongodb::bson::oid::ObjectId::parse_str(reference) {
        Ok(id) => Some(id.bytes()),
        Err(_) => None,
    }
}

/// Chooses the container of `pool` whose turn it is at `cursor`, in rotation:
/// the containers are taken in their order, and after the last comes the
/// first again.
pub fn select_instance(pool: &LoadBalancer, cursor: usize) -> (selection: Selection)
    ensures
        selection@ == selected(pool@, cursor as int),
{
    let len: usize = pool.containers.len();
    if len == 0 {
        return Selection::Empty;
    }
    let index: usize = cursor % len;
    let next: usize = (index + 1) % len;
    assert(pool@.containers[index as int] == pool.containers@[index as int]@);
    match parse_record_key(pool.containers[index].as_str()) {
        Some(key) => Selection::Picked { key, next_cursor: next },
        None => Selection::Malformed { next_cursor: next },
    }
}

} // verus!
