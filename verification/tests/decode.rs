use chip8::instruction::Instruction;

#[test]
fn every_pattern_selects_its_operation() {
    let table = [
        (0x00E0, Instruction::Cls),
        (0x00EE, Instruction::Ret),
        (0x1ABC, Instruction::JpNnn { nnn: 0xABC }),
        (0x2ABC, Instruction::CallNnn { nnn: 0xABC }),
        (0x3A42, Instruction::SeVxKk { x: 0xA, kk: 0x42 }),
        (0x4A42, Instruction::SneVxKk { x: 0xA, kk: 0x42 }),
        (0x5AB0, Instruction::SeVxVy { x: 0xA, y: 0xB }),
        (0x6A42, Instruction::LdVxKk { x: 0xA, kk: 0x42 }),
        (0x7A42, Instruction::AddVxKk { x: 0xA, kk: 0x42 }),
        (0x8AB0, Instruction::LdVxVy { x: 0xA, y: 0xB }),
        (0x8AB1, Instruction::OrVxVy { x: 0xA, y: 0xB }),
        (0x8AB2, Instruction::AndVxVy { x: 0xA, y: 0xB }),
        (0x8AB3, Instruction::XorVxVy { x: 0xA, y: 0xB }),
        (0x8AB4, Instruction::AddVxVy { x: 0xA, y: 0xB }),
        (0x8AB5, Instruction::SubVxVy { x: 0xA, y: 0xB }),
        (0x8AB6, Instruction::ShrVx { x: 0xA }),
        (0x8AB7, Instruction::SubnVxVy { x: 0xA, y: 0xB }),
        (0x8ABE, Instruction::ShlVx { x: 0xA }),
        (0x9AB0, Instruction::SneVxVy { x: 0xA, y: 0xB }),
        (0xAABC, Instruction::LdINnn { nnn: 0xABC }),
        (0xBABC, Instruction::JpV0Nnn { nnn: 0xABC }),
        (0xCA42, Instruction::RndVxKk { x: 0xA, kk: 0x42 }),
        (0xDAB7, Instruction::DrwVxVyN { x: 0xA, y: 0xB, n: 7 }),
        (0xEA9E, Instruction::SkpVx { x: 0xA }),
        (0xEAA1, Instruction::SknpVx { x: 0xA }),
        (0xFA07, Instruction::LdVxDt { x: 0xA }),
        (0xFA0A, Instruction::LdVxK { x: 0xA }),
        (0xFA15, Instruction::LdDtVx { x: 0xA }),
        (0xFA18, Instruction::LdStVx { x: 0xA }),
        (0xFA1E, Instruction::AddIVx { x: 0xA }),
    ];
    for (word, op) in table {
        assert_eq!(Instruction::from_word(word), op);
    }
}

#[test]
fn words_outside_the_table_select_nothing() {
    for word in [
        0x0000, 0x00E1, 0x00EF, 0x01E0, 0x0123, 0x5AB1, 0x5ABF, 0x8AB8, 0x8ABD, 0x8ABF, 0x9AB1,
        0xEA9F, 0xEA00, 0xEAA0, 0xFA00, 0xFA08, 0xFA1F, 0xFA29, 0xFA33, 0xFA55, 0xFA65, 0xFFFF,
    ] {
        assert_eq!(Instruction::from_word(word), Instruction::Unknown);
    }
}

#[test]
fn operands_cover_their_whole_range() {
    assert_eq!(Instruction::from_word(0x1000), Instruction::JpNnn { nnn: 0 });
    assert_eq!(Instruction::from_word(0x1FFF), Instruction::JpNnn { nnn: 0xFFF });
    assert_eq!(Instruction::from_word(0x6000), Instruction::LdVxKk { x: 0, kk: 0 });
    assert_eq!(Instruction::from_word(0x6FFF), Instruction::LdVxKk { x: 15, kk: 0xFF });
    assert_eq!(Instruction::from_word(0xD000), Instruction::DrwVxVyN { x: 0, y: 0, n: 0 });
    assert_eq!(Instruction::from_word(0xDFFF), Instruction::DrwVxVyN { x: 15, y: 15, n: 15 });
}
