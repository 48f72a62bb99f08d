use chip8::interpreter::Interpreter;
use chip8::rng::advance;

#[test]
fn generator_follows_its_recurrence() {
    assert_eq!(advance(0), (1013904223, 0x3C));
    assert_eq!(advance(1), (1015568748, 0x3C));
    assert_eq!(advance(1013904223), (1196435762, 0x47));
    assert_eq!(advance(0xFFFF_FFFF), (1012239698, 0x3C));
}

#[test]
fn random_byte_is_masked_and_the_generator_advances() {
    let mut machine = Interpreter::new();
    machine.seed(1013904223);
    machine.decode(0xC3FF).unwrap();
    assert_eq!(machine.v[3], 0x47);
    assert_eq!(machine.rng, 1196435762);

    machine.seed(1013904223);
    machine.decode(0xC30F).unwrap();
    assert_eq!(machine.v[3], 0x07);

    machine.seed(1013904223);
    machine.decode(0xC300).unwrap();
    assert_eq!(machine.v[3], 0);
    assert_eq!(machine.rng, 1196435762);
}

#[test]
fn generator_is_not_degenerate() {
    let mut machine = Interpreter::new();
    let mut seen = [false; 256];
    for _ in 0..4096 {
        machine.decode(0xC0FF).unwrap();
        seen[machine.v[0] as usize] = true;
    }
    assert!(seen.iter().filter(|s| **s).count() > 200);
}
