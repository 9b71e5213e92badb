//! Value types of the key-vault register block: the bit-field views through
//! which its control registers are read and written.
//!
//! Each register value wraps one 32-bit word. A read value exposes getters
//! that extract single bits or short fields; a write value exposes setters
//! that replace exactly the addressed bits and leave every other bit of the
//! word alone. The raw word travels in and out through `From<u32>` and
//! `From<_> for u32`, so the contracts here pin each accessor down to the
//! exact shift-and-mask arithmetic on that word.

use vstd::prelude::*;
use vstd::std_specs::convert::FromSpec;

verus! {

/// Whether bit `i` of `w` is set.
pub open spec fn word_bit(w: u32, i: u32) -> bool
    recommends
        i < 32,
{
    ((w >> i) & 1) != 0
}

/// The field of `w` that starts at bit `lo` and is selected by `mask`.
pub open spec fn word_field(w: u32, lo: u32, mask: u32) -> u32
    recommends
        lo < 32,
{
    (w >> lo) & mask
}

/// `w` with bit `i` replaced by `val` and every other bit unchanged.
pub open spec fn word_with_bit(w: u32, i: u32, val: bool) -> u32
    recommends
        i < 32,
{
    (w & !(1u32 << i)) | ((if val {
        1u32
    } else {
        0u32
    }) << i)
}

/// `w` with the field at bit `lo` selected by `mask` replaced by the
/// masked `val`, and every bit outside the field unchanged.
pub open spec fn word_with_field(w: u32, lo: u32, mask: u32, val: u32) -> u32
    recommends
        lo < 32,
{
    (w & !(mask << lo)) | ((val & mask) << lo)
}

/// Read value of the register that clears the key-vault secrets.
#[derive(Clone, Copy)]
pub struct ClearSecretsReadVal {
    reg: u32,
}

impl ClearSecretsReadVal {
    /// The raw 32-bit word this value wraps.
    pub closed spec fn raw(self) -> u32 {
        self.reg
    }

    /// Fill the key vault with debug values.
    pub fn wr_debug_values(&self) -> (r: bool)
        ensures
            r == word_bit(self.raw(), 0),
    {
        ((self.reg >> 0u32) & 1) != 0
    }

    /// Selects between debug value 0 or 1 to write to the key vault.
    pub fn sel_debug_value(&self) -> (r: bool)
        ensures
            r == word_bit(self.raw(), 1),
    {
        ((self.reg >> 1u32) & 1) != 0
    }

    /// A write value carrying the same word, ready to be modified.
    pub fn modify(self) -> (r: ClearSecretsWriteVal)
        ensures
            r.raw() == self.raw(),
    {
        ClearSecretsWriteVal { reg: self.reg }
    }
}

impl From<u32> for ClearSecretsReadVal {
    fn from(val: u32) -> (r: Self) {
        ClearSecretsReadVal { reg: val }
    }
}

impl vstd::std_specs::convert::FromSpecImpl<u32> for ClearSecretsReadVal {
    open spec fn obeys_from_spec() -> bool {
        true
    }

    closed spec fn from_spec(val: u32) -> ClearSecretsReadVal {
        ClearSecretsReadVal { reg: val }
    }
}

/// Law: wrapping a word in a `ClearSecretsReadVal` keeps the word.
pub proof fn lemma_clear_secrets_read_val_from(val: u32)
    ensures
        ClearSecretsReadVal::from_spec(val).raw() == val,
{
}

impl From<ClearSecretsReadVal> for u32 {
    fn from(val: ClearSecretsReadVal) -> (r: u32) {
        val.reg
    }
}

impl vstd::std_specs::convert::FromSpecImpl<ClearSecretsReadVal> for u32 {
    open spec fn obeys_from_spec() -> bool {
        true
    }

    open spec fn from_spec(val: ClearSecretsReadVal) -> u32 {
        val.raw()
    }
}

/// Write value of the register that clears the key-vault secrets.
#[derive(Clone, Copy)]
pub struct ClearSecretsWriteVal {
    reg: u32,
}

impl ClearSecretsWriteVal {
    /// The raw 32-bit word this value wraps.
    pub closed spec fn raw(self) -> u32 {
        self.reg
    }

    /// Fill the key vault with debug values.
    pub fn wr_debug_values(self, val: bool) -> (r: Self)
        ensures
            r.raw() == word_with_bit(self.raw(), 0, val),
    {
        ClearSecretsWriteVal {
            reg: (self.reg & !(1u32 << 0u32)) | ((if val {
                1u32
            } else {
                0u32
            }) << 0u32),
        }
    }

    /// Selects between debug value 0 or 1 to write to the key vault.
    pub fn sel_debug_value(self, val: bool) -> (r: Self)
        ensures
            r.raw() == word_with_bit(self.raw(), 1, val),
    {
        ClearSecretsWriteVal {
            reg: (self.reg & !(1u32 << 1u32)) | ((if val {
                1u32
            } else {
                0u32
            }) << 1u32),
        }
    }
}

impl From<u32> for ClearSecretsWriteVal {
    fn from(val: u32) -> (r: Self) {
        ClearSecretsWriteVal { reg: val }
    }
}

impl vstd::std_specs::convert::FromSpecImpl<u32> for ClearSecretsWriteVal {
    open spec fn obeys_from_spec() -> bool {
        true
    }

    closed spec fn from_spec(val: u32) -> ClearSecretsWriteVal {
        ClearSecretsWriteVal { reg: val }
    }
}

/// Law: wrapping a word in a `ClearSecretsWriteVal` keeps the word.
pub proof fn lemma_clear_secrets_write_val_from(val: u32)
    ensures
        ClearSecretsWriteVal::from_spec(val).raw() == val,
{
}

impl From<ClearSecretsWriteVal> for u32 {
    fn from(val: ClearSecretsWriteVal) -> (r: u32) {
        val.reg
    }
}

impl vstd::std_specs::convert::FromSpecImpl<ClearSecretsWriteVal> for u32 {
    open spec fn obeys_from_spec() -> bool {
        true
    }

    open spec fn from_spec(val: ClearSecretsWriteVal) -> u32 {
        val.raw()
    }
}

/// Read value of the per-entry key-vault control register.
#[derive(Clone, Copy)]
pub struct KvctrlReadVal {
    reg: u32,
}

impl KvctrlReadVal {
    /// The raw 32-bit word this value wraps.
    pub closed spec fn raw(self) -> u32 {
        self.reg
    }

    /// Lock writes to this entry: writes are suppressed and an error is
    /// recorded.
    pub fn lock_wr(&self) -> (r: bool)
        ensures
            r == word_bit(self.raw(), 0),
    {
        ((self.reg >> 0u32) & 1) != 0
    }

    /// Lock use of this entry: reads are suppressed and an error is
    /// recorded.
    pub fn lock_use(&self) -> (r: bool)
        ensures
            r == word_bit(self.raw(), 1),
    {
        ((self.reg >> 1u32) & 1) != 0
    }

    /// Clear the data stored in this entry; a write lock prevents the
    /// clear.
    pub fn clear(&self) -> (r: bool)
        ensures
            r == word_bit(self.raw(), 2),
    {
        ((self.reg >> 2u32) & 1) != 0
    }

    /// Reserved.
    pub fn rsvd0(&self) -> (r: bool)
        ensures
            r == word_bit(self.raw(), 3),
    {
        ((self.reg >> 3u32) & 1) != 0
    }

    /// Reserved.
    pub fn rsvd1(&self) -> (r: u32)
        ensures
            r == word_field(self.raw(), 4, 0x1f),
    {
        (self.reg >> 4u32) & 0x1f
    }

    /// The per-destination valid bits of this entry, packed as one field.
    pub fn dest_valid(&self) -> (r: u32)
        ensures
            r == word_field(self.raw(), 9, 0xff),
    {
        (self.reg >> 9u32) & 0xff
    }

    /// The offset of the last valid word, marking the last cycle on reads.
    pub fn last_dword(&self) -> (r: u32)
        ensures
            r == word_field(self.raw(), 17, 0xf),
    {
        (self.reg >> 17u32) & 0xf
    }

    /// A write value carrying the same word, ready to be modified.
    pub fn modify(self) -> (r: KvctrlWriteVal)
        ensures
            r.raw() == self.raw(),
    {
        KvctrlWriteVal { reg: self.reg }
    }
}

impl From<u32> for KvctrlReadVal {
    fn from(val: u32) -> (r: Self) {
        KvctrlReadVal { reg: val }
    }
}

impl vstd::std_specs::convert::FromSpecImpl<u32> for KvctrlReadVal {
    open spec fn obeys_from_spec() -> bool {
        true
    }

    closed spec fn from_spec(val: u32) -> KvctrlReadVal {
        KvctrlReadVal { reg: val }
    }
}

/// Law: wrapping a word in a `KvctrlReadVal` keeps the word.
pub proof fn lemma_kvctrl_read_val_from(val: u32)
    ensures
        KvctrlReadVal::from_spec(val).raw() == val,
{
}

impl From<KvctrlReadVal> for u32 {
    fn from(val: KvctrlReadVal) -> (r: u32) {
        val.reg
    }
}

impl vstd::std_specs::convert::FromSpecImpl<KvctrlReadVal> for u32 {
    open spec fn obeys_from_spec() -> bool {
        true
    }

    open spec fn from_spec(val: KvctrlReadVal) -> u32 {
        val.raw()
    }
}

/// Write value of the per-entry key-vault control register.
#[derive(Clone, Copy)]
pub struct KvctrlWriteVal {
    reg: u32,
}

impl KvctrlWriteVal {
    /// The raw 32-bit word this value wraps.
    pub closed spec fn raw(self) -> u32 {
        self.reg
    }

    /// Lock writes to this entry: writes are suppressed and an error is
    /// recorded.
    pub fn lock_wr(self, val: bool) -> (r: Self)
        ensures
            r.raw() == word_with_bit(self.raw(), 0, val),
    {
        KvctrlWriteVal {
            reg: (self.reg & !(1u32 << 0u32)) | ((if val {
                1u32
            } else {
                0u32
            }) << 0u32),
        }
    }

    /// Lock use of this entry: reads are suppressed and an error is
    /// recorded.
    pub fn lock_use(self, val: bool) -> (r: Self)
        ensures
            r.raw() == word_with_bit(self.raw(), 1, val),
    {
        KvctrlWriteVal {
            reg: (self.reg & !(1u32 << 1u32)) | ((if val {
                1u32
            } else {
                0u32
            }) << 1u32),
        }
    }

    /// Clear the data stored in this entry; a write lock prevents the
    /// clear.
    pub fn clear(self, val: bool) -> (r: Self)
        ensures
            r.raw() == word_with_bit(self.raw(), 2, val),
    {
        KvctrlWriteVal {
            reg: (self.reg & !(1u32 << 2u32)) | ((if val {
                1u32
            } else {
                0u32
            }) << 2u32),
        }
    }

    /// Reserved.
    pub fn rsvd0(self, val: bool) -> (r: Self)
        ensures
            r.raw() == word_with_bit(self.raw(), 3, val),
    {
        KvctrlWriteVal {
            reg: (self.reg & !(1u32 << 3u32)) | ((if val {
                1u32
            } else {
                0u32
            }) << 3u32),
        }
    }

    /// Reserved.
    pub fn rsvd1(self, val: u32) -> (r: Self)
        ensures
            r.raw() == word_with_field(self.raw(), 4, 0x1f, val),
    {
        KvctrlWriteVal { reg: (self.reg & !(0x1fu32 << 4u32)) | ((val & 0x1f) << 4u32) }
    }
}

impl From<u32> for KvctrlWriteVal {
    fn from(val: u32) -> (r: Self) {
        KvctrlWriteVal { reg: val }
    }
}

impl vstd::std_specs::convert::FromSpecImpl<u32> for KvctrlWriteVal {
    open spec fn obeys_from_spec() -> bool {
        true
    }

    closed spec fn from_spec(val: u32) -> KvctrlWriteVal {
        KvctrlWriteVal { reg: val }
    }
}

/// Law: wrapping a word in a `KvctrlWriteVal` keeps the word.
pub proof fn lemma_kvctrl_write_val_from(val: u32)
    ensures
        KvctrlWriteVal::from_spec(val).raw() == val,
{
}

impl From<KvctrlWriteVal> for u32 {
    fn from(val: KvctrlWriteVal) -> (r: u32) {
        val.reg
    }
}

impl vstd::std_specs::convert::FromSpecImpl<KvctrlWriteVal> for u32 {
    open spec fn obeys_from_spec() -> bool {
        true
    }

    open spec fn from_spec(val: KvctrlWriteVal) -> u32 {
        val.raw()
    }
}

} // verus!
