//! A fixed set of devices handed out in round-robin order.
use vstd::prelude::*;

use crate::device::context::{device_id_of, DeviceContext};

verus! {

/// The devices of a pool and the position of the next one to hand out.
pub struct DevicePoolView {
    pub devices: Seq<DeviceContext>,
    pub cursor: nat,
}

/// Device `i` of a pool built from `prefix` is the device at index `i` named from `prefix`.
pub open spec fn is_pool_device(d: DeviceContext, prefix: Seq<char>, i: int) -> bool {
    d.index == i && d.device_id@ == device_id_of(prefix, i as nat)
}

/// The position after `cursor` in a pool of `len` devices.
pub open spec fn next_cursor(cursor: nat, len: nat) -> nat
    recommends
        len > 0,
{
    (cursor + 1) % len
}

/// Devices handed out one after another, wrapping around.
pub struct DevicePool {
    devices: Vec<DeviceContext>,
    cursor: usize,
}

impl View for DevicePool {
    type V = DevicePoolView;

    closed spec fn view(&self) -> DevicePoolView {
        DevicePoolView { devices: self.devices@, cursor: self.cursor as nat }
    }
}

impl DevicePool {
    /// The cursor always points at a device, unless the pool is empty.
    #[verifier::type_invariant]
    spec fn cursor_in_pool(&self) -> bool {
        &&& self.devices@.len() == 0 ==> self.cursor == 0
        &&& self.devices@.len() > 0 ==> self.cursor < self.devices@.len()
    }

    /// A pool of `count` devices named from `id_prefix`, the first one next.
    pub fn new(count: usize, id_prefix: &str) -> (res: Self)
        ensures
            res@.devices.len() == count,
            res@.cursor == 0,
            forall|i: int| 0 <= i < count ==> is_pool_device(#[trigger] res@.devices[i], id_prefix@, i),
    {
        let mut devices: Vec<DeviceContext> = Vec::new();
        for i in 0..count
            invariant
                devices@.len() == i,
                forall|j: int| 0 <= j < i ==> is_pool_device(#[trigger] devices@[j], id_prefix@, j),
        {
            devices.push(DeviceContext::new(i, id_prefix));
        }
        DevicePool { devices, cursor: 0 }
    }

    /// Hands out the device at the cursor and moves the cursor on, wrapping around.
    pub fn next(&mut self) -> (res: &DeviceContext)
        requires
            old(self)@.devices.len() > 0,
        ensures
            old(self)@.cursor < old(self)@.devices.len(),
            *res == old(self)@.devices[old(self)@.cursor as int],
            old(self)@.devices.contains(*res),
            final(self)@.devices == old(self)@.devices,
            final(self)@.cursor == next_cursor(old(self)@.cursor, old(self)@.devices.len()),
    {
        proof {
            use_type_invariant(&*self);
        }
        let i = self.cursor;
        let len = self.devices.len();
        proof {
            assert(i < self.devices@.len());
            if i + 1 < self.devices@.len() {
                vstd::arithmetic::div_mod::lemma_small_mod((i + 1) as nat, self.devices@.len());
            } else {
                vstd::arithmetic::div_mod::lemma_mod_self_0(self.devices@.len() as int);
            }
        }
        self.cursor = if i + 1 == len { 0 } else { i + 1 };
        &self.devices[i]
    }

    /// All devices of the pool, in index order.
    pub fn all(&self) -> (res: &[DeviceContext])
        ensures
            res@ == self@.devices,
    {
        self.devices.as_slice()
    }
}

/// The cursor of a pool of `len` devices after `k` calls of `next` from a new pool.
pub open spec fn cursor_after(len: nat, k: nat) -> nat
    decreases k,
{
    if k == 0 {
        0
    } else {
        next_cursor(cursor_after(len, (k - 1) as nat), len)
    }
}

/// Round-robin law: on a new pool of `len` devices, the `k`-th call of `next`
/// (counting from zero) hands out device `k mod len`, since the cursor has then
/// moved on `k` times from the first device.
pub proof fn round_robin(len: nat, k: nat)
    requires
        len > 0,
    ensures
        cursor_after(len, k) == k % len,
    decreases k,
{
    if k == 0 {
        vstd::arithmetic::div_mod::lemma_small_mod(0, len);
    } else {
        round_robin(len, (k - 1) as nat);
        vstd::arithmetic::div_mod::lemma_add_mod_noop((k - 1) as int, 1, len as int);
        if len > 1 {
            vstd::arithmetic::div_mod::lemma_small_mod(1, len);
        } else {
            assert(1nat % 1 == 0);
        }
        vstd::arithmetic::div_mod::lemma_mod_bound((k - 1) as int, len as int);
    }
}

} // verus!
