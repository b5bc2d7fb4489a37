//! One simulated device: its id and its position.
use vstd::prelude::*;

use crate::text::{chars_of, decimal, push_decimal, string_from_chars};

verus! {

/// `s` with `'0'`s put in front until it is at least `width` long.
pub open spec fn zero_pad(s: Seq<char>, width: nat) -> Seq<char> {
    if s.len() >= width {
        s
    } else {
        Seq::new((width - s.len()) as nat, |i: int| '0') + s
    }
}

/// The id of the device at `index`: the prefix, a dash, and the index in decimal
/// with at least four digits.
pub open spec fn device_id_of(prefix: Seq<char>, index: nat) -> Seq<char> {
    prefix + seq!['-'] + zero_pad(decimal(index), 4)
}

/// A simulated device.
#[derive(Debug)]
pub struct DeviceContext {
    pub device_id: String,
    pub index: usize,
}

impl Clone for DeviceContext {
    fn clone(&self) -> (res: Self)
        ensures
            res == *self,
    {
        DeviceContext { device_id: self.device_id.clone(), index: self.index }
    }
}

impl DeviceContext {
    /// The device at `index`, named from `id_prefix`.
    pub fn new(index: usize, id_prefix: &str) -> (res: Self)
        ensures
            res.index == index,
            res.device_id@ == device_id_of(id_prefix@, index as nat),
    {
        let mut digits: Vec<char> = Vec::new();
        push_decimal(&mut digits, index);
        assert(digits@ == decimal(index as nat));
        let mut id = chars_of(id_prefix);
        id.push('-');
        let mut pad = digits.len();
        while pad < 4
            invariant
                digits@ == decimal(index as nat),
                digits@.len() <= pad <= 4 || (pad == digits@.len() && pad > 4),
                id@ == id_prefix@ + seq!['-'] + Seq::new(
                    (pad - digits@.len()) as nat,
                    |i: int| '0',
                ),
            decreases 4 - pad,
        {
            id.push('0');
            pad = pad + 1;
            assert(Seq::new((pad - digits@.len()) as nat, |i: int| '0') =~= Seq::new(
                (pad - 1 - digits@.len()) as nat,
                |i: int| '0',
            ).push('0'));
        }
        let ghost before = id@;
        let n = digits.len();
        for i in 0..n
            invariant
                n == digits@.len(),
                id@ == before + digits@.take(i as int),
        {
            id.push(digits[i]);
            assert(digits@.take(i + 1) == digits@.take(i as int).push(digits@[i as int]));
        }
        assert(digits@.take(n as int) == digits@);
        assert(id@ == device_id_of(id_prefix@, index as nat)) by {
            if digits@.len() >= 4 {
                assert(Seq::new(0, |i: int| '0') + digits@ =~= digits@);
                assert(Seq::<char>::new(0, |i: int| '0') =~= Seq::<char>::empty());
            }
        }
        DeviceContext { device_id: string_from_chars(id.as_slice()), index }
    }
}

} // verus!
