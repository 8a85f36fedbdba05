use chkp_counter::instructions::{parse_instruction, InstructionTypes};

#[test]
fn parse_splits_discriminant_from_payload() {
    let (itype, rest) = parse_instruction(&[1, 4, 0, 0, 0, 0, 0, 0, 0]);
    assert_eq!(itype, InstructionTypes::Counter);
    assert_eq!(rest, &[4, 0, 0, 0, 0, 0, 0, 0]);

    let (itype, rest) = parse_instruction(&[2]);
    assert_eq!(itype, InstructionTypes::DeleteAccount);
    assert_eq!(rest, &[] as &[u8]);
}

#[test]
fn parse_maps_zero_and_unrecognized_tags_to_unknown() {
    let (itype, rest) = parse_instruction(&[0, 1, 2]);
    assert_eq!(itype, InstructionTypes::Unknown);
    assert_eq!(rest, &[1, 2]);

    for tag in [3u8, 7, 128, 255] {
        let (itype, _) = parse_instruction(&[tag, 0]);
        assert_eq!(itype, InstructionTypes::Unknown);
    }
}

#[test]
fn parse_of_empty_input_is_unknown_with_empty_rest() {
    let (itype, rest) = parse_instruction(&[]);
    assert_eq!(itype, InstructionTypes::Unknown);
    assert_eq!(rest, &[] as &[u8]);
}

#[test]
fn it_works() {
    assert_eq!(42, 42);
}
