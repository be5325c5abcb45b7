use lottery::error::LotteryError;
use lottery::instruction::LotteryInstruction;

#[test]
fn unpack_maps_the_three_tags() {
    assert!(matches!(
        LotteryInstruction::unpack(&[0]),
        Ok(LotteryInstruction::InitLottery)
    ));
    assert!(matches!(
        LotteryInstruction::unpack(&[1]),
        Ok(LotteryInstruction::Play)
    ));
    assert!(matches!(
        LotteryInstruction::unpack(&[2]),
        Ok(LotteryInstruction::Draw)
    ));
}

#[test]
fn unpack_ignores_trailing_bytes() {
    assert!(matches!(
        LotteryInstruction::unpack(&[1, 0xFF, 0x13]),
        Ok(LotteryInstruction::Play)
    ));
}

#[test]
fn unpack_rejects_empty_buffer() {
    assert_eq!(
        LotteryInstruction::unpack(&[]).unwrap_err(),
        LotteryError::InvalidInstruction
    );
}

#[test]
fn unpack_rejects_every_unknown_tag() {
    for tag in 3u8..=255 {
        assert_eq!(
            LotteryInstruction::unpack(&[tag]).unwrap_err(),
            LotteryError::InvalidInstruction
        );
    }
}
