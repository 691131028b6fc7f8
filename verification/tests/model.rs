use tictactoe::Mark;
use tictactoe::Square;
use tictactoe::Triple;

#[test]
fn test_mark_other() {
    assert_eq!(Mark::Cross.other(), Mark::Naught);
    assert_eq!(Mark::Naught.other(), Mark::Cross);
}

#[test]
fn test_mark_other_is_involution() {
    assert_eq!(Mark::Cross.other().other(), Mark::Cross);
    assert_eq!(Mark::Naught.other().other(), Mark::Naught);
}

#[test]
fn test_mark_to_str() {
    assert_eq!(Mark::Cross.to_str(), "X");
    assert_eq!(Mark::Naught.to_str(), "O");
}

#[test]
fn test_square_bits_are_the_fixed_patterns() {
    assert_eq!(Square::A1.bits(), 0x8008_0080);
    assert_eq!(Square::A2.bits(), 0x4000_8000);
    assert_eq!(Square::A3.bits(), 0x2000_0808);
    assert_eq!(Square::B1.bits(), 0x0804_0000);
    assert_eq!(Square::B2.bits(), 0x0400_4044);
    assert_eq!(Square::B3.bits(), 0x0200_0400);
    assert_eq!(Square::C1.bits(), 0x0082_0002);
    assert_eq!(Square::C2.bits(), 0x0040_2000);
    assert_eq!(Square::C3.bits(), 0x0020_0220);
}

#[test]
fn test_triple_from_index() {
    assert_eq!(Triple::from_index(0), Triple::RowA);
    assert_eq!(Triple::from_index(1), Triple::RowB);
    assert_eq!(Triple::from_index(2), Triple::RowC);
    assert_eq!(Triple::from_index(3), Triple::Col1);
    assert_eq!(Triple::from_index(4), Triple::Col2);
    assert_eq!(Triple::from_index(5), Triple::Col3);
    assert_eq!(Triple::from_index(6), Triple::Diag1);
    assert_eq!(Triple::from_index(7), Triple::Diag2);
}
