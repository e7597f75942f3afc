//! Opcode bit patterns written as text, such as `"1000_1xxx"`.
//!
//! A pattern has eight bit positions, most significant first: `0` and `1` are
//! literal bits, `x` is a bit that may take either value, and `_` only
//! separates groups. A byte matches when `byte & mask == test`, where `mask`
//! has a 1 at every literal position and `test` holds the literal bits.
use vstd::prelude::*;
use vstd::string::StringSliceAdditionalSpecFns;

verus! {

/// Reading a pattern from the left: the mask and test built so far and the
/// number of bit positions seen, or `None` at a character outside `0`, `1`,
/// `x` and `_`.
pub open spec fn parse_pattern(s: Seq<u8>) -> Option<(int, int, nat)>
    decreases s.len(),
{
    if s.len() == 0 {
        Some((0, 0, 0))
    } else {
        match parse_pattern(s.drop_last()) {
            None => None,
            Some((mask, test, n)) => {
                let c = s.last();
                if c == 0x5f {
                    // '_'
                    Some((mask, test, n))
                } else if c == 0x30 {
                    // '0'
                    Some((2 * mask + 1, 2 * test, n + 1))
                } else if c == 0x31 {
                    // '1'
                    Some((2 * mask + 1, 2 * test + 1, n + 1))
                } else if c == 0x78 {
                    // 'x'
                    Some((2 * mask, 2 * test, n + 1))
                } else {
                    None
                }
            },
        }
    }
}

/// A mask and test pair that selects the bytes of one opcode family.
#[derive(Debug, Clone, Copy, PartialEq, Eq)]
pub struct BitPattern {
    pub mask: u8,
    pub test: u8,
}

/// The pattern a text denotes: `None` unless it has exactly eight bit
/// positions and no other characters than `0`, `1`, `x` and `_`.
pub open spec fn pattern_of(s: Seq<u8>) -> Option<BitPattern> {
    match parse_pattern(s) {
        Some((mask, test, n)) => if n == 8 {
            Some(BitPattern { mask: mask as u8, test: test as u8 })
        } else {
            None
        },
        None => None,
    }
}

pub open spec fn pow2(n: nat) -> nat
    decreases n,
{
    if n == 0 {
        1
    } else {
        2 * pow2((n - 1) as nat)
    }
}

/// Parsing never loses bit positions as the text grows, and the mask and test
/// fit in the positions seen.
proof fn lemma_parse_prefix(s: Seq<u8>, i: int)
    requires
        0 <= i <= s.len(),
        parse_pattern(s) is Some,
    ensures
        match (parse_pattern(s.subrange(0, i)), parse_pattern(s)) {
            (Some((_, _, k)), Some((_, _, n))) => k <= n,
            _ => false,
        },
    decreases s.len() - i,
{
    if i < s.len() {
        assert(s.drop_last() =~= s.subrange(0, s.len() - 1));
        assert(s.subrange(0, i) =~= s.drop_last().subrange(0, i));
        lemma_parse_prefix(s.drop_last(), i);
    } else {
        assert(s.subrange(0, i) =~= s);
    }
}

impl BitPattern {
    pub open spec fn spec_matches(self, byte: u8) -> bool {
        byte & self.mask == self.test
    }

    /// Whether `byte` belongs to the family this pattern selects.
    pub fn matches(&self, byte: u8) -> (r: bool)
        ensures
            r == self.spec_matches(byte),
    {
        byte & self.mask == self.test
    }

    /// Parses a textual pattern; `None` if it is not one.
    pub fn parse(pattern: &str) -> (r: Option<BitPattern>)
        ensures
            r == pattern_of(pattern.spec_bytes()),
    {
        let bytes = pattern.as_bytes();
        let ghost s = bytes@;
        let mut mask: u32 = 0;
        let mut test: u32 = 0;
        let mut n: u32 = 0;
        let mut i: usize = 0;
        while i < bytes.len()
            invariant
                s == bytes@,
                s == pattern.spec_bytes(),
                0 <= i <= s.len(),
                n <= 8,
                mask < pow2(n as nat),
                test < pow2(n as nat),
                parse_pattern(s.subrange(0, i as int)) == Some((mask as int, test as int, n as nat)),
            decreases s.len() - i,
        {
            let c = bytes[i];
            proof {
                assert(s.subrange(0, i + 1).drop_last() =~= s.subrange(0, i as int));
                assert(s.subrange(0, i + 1).last() == c);
                reveal_with_fuel(pow2, 9);
            }
            if c == 0x5f {
            } else if c == 0x30 || c == 0x31 || c == 0x78 {
                if n == 8 {
                    proof {
                        assert(parse_pattern(s.subrange(0, i + 1))->0 == (
                            2 * mask + (if c == 0x78 { 0int } else { 1int }),
                            2 * test + (if c == 0x31 { 1int } else { 0int }),
                            9nat,
                        ));
                        if parse_pattern(s) is Some {
                            lemma_parse_prefix(s, i + 1);
                        }
                    }
                    return None;
                }
                let bit: u32 = if c == 0x78 { 0 } else { 1 };
                let value: u32 = if c == 0x31 { 1 } else { 0 };
                mask = 2 * mask + bit;
                test = 2 * test + value;
                n = n + 1;
            } else {
                proof {
                    assert(parse_pattern(s.subrange(0, i + 1)) is None);
                    if parse_pattern(s) is Some {
                        lemma_parse_prefix(s, i + 1);
                    }
                }
                return None;
            }
            i = i + 1;
        }
        proof {
            assert(s.subrange(0, i as int) =~= s);
            reveal_with_fuel(pow2, 9);
        }
        if n == 8 {
            Some(BitPattern { mask: mask as u8, test: test as u8 })
        } else {
            None
        }
    }
}

/// Whether `value` matches the textual `pattern`; `None` if the text is not a
/// pattern.
pub fn bits(value: u8, pattern: &str) -> (r: Option<bool>)
    ensures
        r == match pattern_of(pattern.spec_bytes()) {
            Some(p) => Some(p.spec_matches(value)),
            None => None,
        },
{
    match BitPattern::parse(pattern) {
        Some(p) => Some(p.matches(value)),
        None => None,
    }
}

} // verus!
