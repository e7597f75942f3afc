use rust_computer::{
    ArithOp, BitPattern, Comparison, DataWidth, DirectAddress, Insn, Instruction, Location,
    Memory, ProgramCounter, StackOp, UJumpOp, UMathOp, bits,
};
use rust_computer::location::{fetch, fetch_byte};

fn memory_with(bytes: &[u8]) -> Memory {
    let mut m = Memory::new(bytes.len());
    m.load_image(bytes);
    m
}

fn location(bytes: &[u8]) -> (Option<Location>, u32) {
    let m = memory_with(bytes);
    let mut pc = ProgramCounter::new(0);
    let r = Location::decode(&m, &mut pc).ok();
    (r, pc.address)
}

fn instruction(bytes: &[u8]) -> (Option<Instruction>, u32) {
    let m = memory_with(bytes);
    let mut pc = ProgramCounter::new(0);
    let r = Instruction::decode(&m, &mut pc).ok();
    (r, pc.address)
}

fn insn(bytes: &[u8]) -> (Option<Insn>, u32) {
    let m = memory_with(bytes);
    let mut pc = ProgramCounter::new(0);
    let r = Insn::decode(&m, &mut pc).ok();
    (r, pc.address)
}

#[test]
fn program_counter_advances() {
    let mut pc = ProgramCounter::new(10);
    assert_eq!(pc.advance(), 10);
    assert_eq!(pc.address, 11);
    assert_eq!(pc.advance_n(4), 11);
    assert_eq!(pc.address, 15);
}

#[test]
fn fetching_never_wraps_the_program_counter() {
    let m = memory_with(&[0x80, 0x01, 0x02, 0x03]);
    let mut top = ProgramCounter::new(u32::MAX);
    assert!(fetch_byte(&m, &mut top).is_err());
    assert_eq!(top.address, u32::MAX);
    let mut near = ProgramCounter::new(u32::MAX - 2);
    assert!(fetch(&m, &mut near, DataWidth::Word).is_err());
    assert_eq!(near.address, u32::MAX - 2);
    let mut pc = ProgramCounter::new(u32::MAX);
    assert!(Location::decode(&m, &mut pc).is_err());
    assert_eq!(pc.address, u32::MAX);
    let mut pc = ProgramCounter::new(u32::MAX);
    assert!(Instruction::decode(&m, &mut pc).is_err());
    assert_eq!(pc.address, u32::MAX);
    let mut pc = ProgramCounter::new(u32::MAX);
    assert!(Insn::decode(&m, &mut pc).is_err());
    assert_eq!(pc.address, u32::MAX);
    let mut start = ProgramCounter::new(0);
    assert_eq!(fetch(&m, &mut start, DataWidth::Short).ok(), Some(0x8001));
    assert_eq!(start.address, 2);
    assert_eq!(fetch_byte(&m, &mut start).ok(), Some(0x02));
    assert_eq!(start.address, 3);
}

#[test]
fn width_field_decodes() {
    assert_eq!(DataWidth::decode(0b1000_0000), DataWidth::Byte);
    assert_eq!(DataWidth::decode(0b1000_0001), DataWidth::Short);
    assert_eq!(DataWidth::decode(0b1000_0010), DataWidth::Word);
    assert_eq!(DataWidth::decode(0b1000_0011), DataWidth::Word);
}

#[test]
fn short_immediate_and_register_operands() {
    assert_eq!(location(&[0x05]), (Some(Location::Immediate(5)), 1));
    assert_eq!(location(&[0x7F]), (Some(Location::Immediate(0x7F)), 1));
    assert_eq!(
        location(&[0xC3]),
        (Some(Location::Direct(DirectAddress::Register(3))), 1)
    );
}

#[test]
fn immediate_and_frame_operands_with_bytes() {
    assert_eq!(location(&[0x80, 0xAB]), (Some(Location::Immediate(0xAB)), 2));
    assert_eq!(location(&[0x81, 0x12, 0x34]), (Some(Location::Immediate(0x1234)), 3));
    assert_eq!(
        location(&[0x82, 0xDE, 0xAD, 0xBE, 0xEF]),
        (Some(Location::Immediate(0xDEAD_BEEF)), 5)
    );
    assert_eq!(
        location(&[0x84, 0x02]),
        (Some(Location::Direct(DirectAddress::Frame(2))), 2)
    );
}

#[test]
fn indirect_operands() {
    assert_eq!(
        location(&[0x8A, 0x01]),
        (Some(Location::Indirect(DirectAddress::Register(1), DataWidth::Word)), 2)
    );
    assert_eq!(
        location(&[0x8E, 0, 0, 0, 2]),
        (Some(Location::Indirect(DirectAddress::Frame(2), DataWidth::Word)), 5)
    );
    assert_eq!(
        location(&[0x91, 0x02]),
        (Some(Location::IndirectPostIncrement(DirectAddress::Register(2), DataWidth::Short)), 2)
    );
    assert_eq!(
        location(&[0x98, 0x00]),
        (Some(Location::IndirectPreDecrement(DirectAddress::Register(0), DataWidth::Byte)), 2)
    );
}

#[test]
fn bad_operands_fail() {
    assert_eq!(location(&[0xA0]), (None, 1));
    assert_eq!(location(&[0xFF]), (None, 1));
    assert_eq!(location(&[0x82, 0x00]), (None, 5));
    assert_eq!(location(&[0x8C, 0x00]), (None, 5));
    assert_eq!(location(&[]), (None, 1));
}

#[test]
fn instruction_families_decode() {
    assert_eq!(instruction(&[0x00]), (Some(Instruction::Nop), 1));
    assert_eq!(
        instruction(&[0x01, 0x05, 0xC0]),
        (
            Some(Instruction::Move {
                source: Location::Immediate(5),
                dest: Location::Direct(DirectAddress::Register(0)),
            }),
            3
        )
    );
    assert_eq!(
        instruction(&[0x0B, 0xC1, 0x02, 0xC3]),
        (
            Some(Instruction::Arith {
                op: ArithOp::Div,
                a: Location::Direct(DirectAddress::Register(1)),
                b: Location::Immediate(2),
                dest: Location::Direct(DirectAddress::Register(3)),
            }),
            4
        )
    );
    assert_eq!(
        instruction(&[0x10, 0, 0, 1, 0]),
        (Some(Instruction::Jump { target: 0x100 }), 5)
    );
    assert_eq!(
        instruction(&[0x13, 0xC0, 0x81, 0x01, 0x00, 0, 0, 0, 7]),
        (
            Some(Instruction::Branch {
                cond: Comparison::Less,
                a: Location::Direct(DirectAddress::Register(0)),
                b: Location::Immediate(0x100),
                target: 7,
            }),
            9
        )
    );
}

#[test]
fn unknown_opcodes_fail_after_one_byte() {
    for op in [0x02u8, 0x0D, 0x0E, 0x0F, 0x17, 0x18, 0x20, 0xFF] {
        assert_eq!(instruction(&[op, 0, 0, 0, 0, 0, 0]), (None, 1));
    }
}

#[test]
fn jump_pattern_wins_over_conditional_jump() {
    assert_eq!(bits(0x10, "0001_0000"), Some(true));
    assert_eq!(bits(0x10, "0001_0xxx"), Some(true));
    let (decoded, _) = instruction(&[0x10, 0, 0, 0, 9]);
    assert_eq!(decoded, Some(Instruction::Jump { target: 9 }));
    let (other, _) = instruction(&[0x11, 0x01, 0x01, 0, 0, 0, 9]);
    assert!(matches!(other, Some(Instruction::Branch { cond: Comparison::Equal, .. })));
}

#[test]
fn patterns_parse_to_mask_and_test() {
    assert_eq!(
        BitPattern::parse("0000_1xxx"),
        Some(BitPattern { mask: 0xF8, test: 0x08 })
    );
    assert_eq!(
        BitPattern::parse("1100_xxxx"),
        Some(BitPattern { mask: 0xF0, test: 0xC0 })
    );
    assert_eq!(
        BitPattern::parse("00000001"),
        Some(BitPattern { mask: 0xFF, test: 0x01 })
    );
    assert_eq!(BitPattern::parse("0000_1xx"), None);
    assert_eq!(BitPattern::parse("0000_1xxx0"), None);
    assert_eq!(BitPattern::parse("0000_2xxx"), None);
    assert_eq!(bits(0x0C, "0000_1xxx"), Some(true));
    assert_eq!(bits(0x1C, "0000_1xxx"), Some(false));
    assert_eq!(bits(0x0C, "0000_1y"), None);
}

#[test]
fn textual_patterns_agree_with_the_decoder() {
    let families: [(&str, u8); 5] = [
        ("0000_0001", 0x01),
        ("0000_1xxx", 0x08),
        ("0001_0000", 0x10),
        ("0001_0xxx", 0x11),
        ("1100_xxxx", 0xC0),
    ];
    for (text, member) in families {
        let p = BitPattern::parse(text).unwrap();
        assert!(p.matches(member));
    }
    for op in 0..=255u8 {
        let is_arith = bits(op, "0000_1xxx").unwrap() && (op & 7) <= 4;
        let (decoded, _) = instruction(&[op, 0, 0, 0, 0, 0, 0, 0]);
        assert_eq!(is_arith, matches!(decoded, Some(Instruction::Arith { .. })));
        let is_register = bits(op, "1100_xxxx").unwrap();
        let (loc, _) = location(&[op, 0, 0, 0, 0]);
        assert_eq!(is_register, matches!(loc, Some(Location::Direct(DirectAddress::Register(_)))));
    }
}

#[test]
fn stack_profile_decodes() {
    assert_eq!(insn(&[0]), (Some(Insn::Nop), 1));
    assert_eq!(insn(&[1, 2]), (Some(Insn::Stack(StackOp::Swap)), 2));
    assert_eq!(insn(&[1, 3, 0, 0, 0, 42]), (Some(Insn::Stack(StackOp::PushValue(42))), 6));
    assert_eq!(insn(&[1, 7, 0, 0, 1, 0]), (Some(Insn::Stack(StackOp::Load(256))), 6));
    assert_eq!(insn(&[1, 8]), (None, 2));
    assert_eq!(insn(&[4, 10]), (Some(Insn::UMath(UMathOp::BitXor)), 2));
    assert_eq!(insn(&[4, 11]), (None, 2));
    assert_eq!(insn(&[5]), (Some(Insn::IMath), 1));
    assert_eq!(insn(&[6]), (Some(Insn::FMath), 1));
    assert_eq!(insn(&[7, 0, 0, 0, 3]), (Some(Insn::Jump(3)), 5));
    assert_eq!(
        insn(&[8, 4, 0, 0, 0, 9]),
        (Some(Insn::UJump(UJumpOp::LessThan, 9)), 6)
    );
    assert_eq!(insn(&[8, 8, 0, 0, 0, 9]), (None, 2));
    assert_eq!(insn(&[9, 0, 0, 0, 1]), (Some(Insn::IJump(1)), 5));
    assert_eq!(insn(&[10, 0, 0, 0, 2]), (Some(Insn::FJump(2)), 5));
    assert_eq!(insn(&[11]), (None, 1));
    assert_eq!(insn(&[7, 0, 0]), (None, 5));
}
