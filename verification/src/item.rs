use vstd::prelude::*;

verus! {

/// Bit of a stored byte that says the point holds a `true` value.
pub const HAS_TRUE: u8 = 0b01;

/// Bit of a stored byte that says the point holds a `false` value.
pub const HAS_FALSE: u8 = 0b10;

/// Which boolean values a point holds: the mathematical content of a
/// [`BinaryItem`].
pub struct Flags {
    pub has_true: bool,
    pub has_false: bool,
}

impl Flags {
    /// The flags of a point that holds no value.
    pub open spec fn none() -> Flags {
        Flags { has_true: false, has_false: false }
    }

    /// Neither flag is set.
    pub open spec fn is_empty(self) -> bool {
        !self.has_true && !self.has_false
    }

    /// The flag that answers a match against `value`.
    pub open spec fn has(self, value: bool) -> bool {
        if value {
            self.has_true
        } else {
            self.has_false
        }
    }

    /// The byte under which the flags are stored.
    pub open spec fn byte(self) -> u8 {
        if self.has_true && self.has_false {
            3u8
        } else if self.has_false {
            2u8
        } else if self.has_true {
            1u8
        } else {
            0u8
        }
    }

    /// The flags that a stored byte stands for; bits above the lowest two are
    /// ignored.
    pub open spec fn of_byte(byte: u8) -> Flags {
        Flags { has_true: byte % 2 == 1, has_false: (byte / 2) % 2 == 1 }
    }

    /// How many of the two flags are set.
    pub open spec fn count(self) -> nat {
        (if self.has_true {
            1nat
        } else {
            0nat
        }) + (if self.has_false {
            1nat
        } else {
            0nat
        })
    }
}

/// Reading back a stored byte gives the flags it was written from.
pub proof fn lemma_byte_round_trip(flags: Flags)
    ensures
        Flags::of_byte(flags.byte()) == flags,
        flags.byte() <= 3,
        flags.byte() == 0 <==> flags.is_empty(),
{
}

/// The two-bit set of flags kept for one point. A multi-valued field may hold
/// both boolean values, so one bit would not do.
#[derive(Clone, Copy, Debug)]
pub struct BinaryItem {
    bits: u8,
}

impl View for BinaryItem {
    type V = Flags;

    closed spec fn view(&self) -> Flags {
        Flags::of_byte(self.bits)
    }
}

impl BinaryItem {
    #[verifier::type_invariant]
    spec fn known_bits_only(self) -> bool {
        self.bits <= 3
    }

    /// The item with no flag set.
    pub fn empty() -> (item: Self)
        ensures
            item@ == Flags::none(),
    {
        BinaryItem { bits: 0 }
    }

    /// The item with exactly the flags given.
    pub fn from_bools(has_true: bool, has_false: bool) -> (item: Self)
        ensures
            item@ == (Flags { has_true, has_false }),
    {
        let mut item = Self::empty();
        item.set(HAS_TRUE, has_true);
        item.set(HAS_FALSE, has_false);
        item
    }

    /// Decodes a stored byte; bits other than the two flags are dropped.
    pub fn from_bits_truncate(bits: u8) -> (item: Self)
        ensures
            item@ == Flags::of_byte(bits),
    {
        let kept = bits & (HAS_TRUE | HAS_FALSE);
        assert(kept <= 3 && kept % 2 == bits % 2 && (kept / 2) % 2 == (bits / 2) % 2) by (bit_vector)
            requires
                kept == bits & (1u8 | 2u8),
        ;
        BinaryItem { bits: kept }
    }

    /// The byte under which the item is stored.
    pub fn bits(&self) -> (byte: u8)
        ensures
            byte == self@.byte(),
    {
        proof {
            use_type_invariant(self);
        }
        self.bits
    }

    /// Sets or clears one flag, `HAS_TRUE` or `HAS_FALSE`.
    fn set(&mut self, flag: u8, value: bool)
        requires
            flag == HAS_TRUE || flag == HAS_FALSE,
        ensures
            final(self)@ == if flag == HAS_TRUE {
                Flags { has_true: value, has_false: old(self)@.has_false }
            } else {
                Flags { has_true: old(self)@.has_true, has_false: value }
            },
    {
        proof {
            use_type_invariant(&*self);
        }
        let before = self.bits;
        let after = if value {
            before | flag
        } else {
            before & !flag
        };
        assert(after <= 3 && (after % 2 == 1) == (if flag == 1 {
            value
        } else {
            before % 2 == 1
        }) && ((after / 2) % 2 == 1) == (if flag == 1 {
            (before / 2) % 2 == 1
        } else {
            value
        })) by (bit_vector)
            requires
                before <= 3,
                flag == 1u8 || flag == 2u8,
                after == if value {
                    before | flag
                } else {
                    before & !flag
                },
        ;
        self.bits = after;
    }

    /// Whether no flag is set.
    pub fn is_empty(&self) -> (empty: bool)
        ensures
            empty == self@.is_empty(),
    {
        proof {
            use_type_invariant(self);
        }
        self.bits == 0
    }

    /// Whether the point holds a `true` value.
    pub fn has_true(&self) -> (set: bool)
        ensures
            set == self@.has_true,
    {
        let bits = self.bits;
        assert((bits & 1u8 != 0) == (bits % 2 == 1)) by (bit_vector);
        self.bits & HAS_TRUE != 0
    }

    /// Whether the point holds a `false` value.
    pub fn has_false(&self) -> (set: bool)
        ensures
            set == self@.has_false,
    {
        let bits = self.bits;
        assert((bits & 2u8 != 0) == ((bits / 2) % 2 == 1)) by (bit_vector);
        self.bits & HAS_FALSE != 0
    }

    /// How many flags are set.
    pub fn count(&self) -> (count: usize)
        ensures
            count == self@.count(),
    {
        let mut count: usize = 0;
        if self.has_true() {
            count = count + 1;
        }
        if self.has_false() {
            count = count + 1;
        }
        count
    }
}

} // verus!
