//! The built-in demonstration program.
use vstd::prelude::*;

verus! {

/// Bytes of the demonstration program that are not padding.
pub const DEMO_SIZE: usize = 48;

/// The demonstration program: it sounds the tone, then moves a sprite with
/// the keys 5, 7, 9 and 0, one move for each key press.
///
/// ```text
/// 200  6EFF  LD   VE, 0xFF
/// 202  FE18  LD   ST, VE
/// 204  00E0  CLS
/// 206  6009  LD   V0, 9
/// 208  E0A1  SKNP V0
/// 20A  7A01  ADD  VA, 1
/// 20C  6107  LD   V1, 7
/// 20E  6401  LD   V4, 1
/// 210  E1A1  SKNP V1
/// 212  8A45  SUB  VA, V4
/// 214  6200  LD   V2, 0
/// 216  E2A1  SKNP V2
/// 218  7B01  ADD  VB, 1
/// 21A  6305  LD   V3, 5
/// 21C  6401  LD   V4, 1
/// 21E  E3A1  SKNP V3
/// 220  8B45  SUB  VB, V4
/// 222  A22A  LD   I, 0x22A
/// 224  DAB6  DRW  VA, VB, 6
/// 226  F80A  LD   V8, K
/// 228  1204  JP   0x204
/// 22A  BA 7C D6 FE 54 AA   the sprite
/// ```
pub const DEMO_CODE: [u8; 48] = [
    0x6E, 0xFF, 0xFE, 0x18, 0x00, 0xE0, 0x60, 0x09,
    0xE0, 0xA1, 0x7A, 0x01, 0x61, 0x07, 0x64, 0x01,
    0xE1, 0xA1, 0x8A, 0x45, 0x62, 0x00, 0xE2, 0xA1,
    0x7B, 0x01, 0x63, 0x05, 0x64, 0x01, 0xE3, 0xA1,
    0x8B, 0x45, 0xA2, 0x2A, 0xDA, 0xB6, 0xF8, 0x0A,
    0x12, 0x04, 0xBA, 0x7C, 0xD6, 0xFE, 0x54, 0xAA,
];

/// The demonstration program, padded with zeros to the size of the program
/// area.
pub open spec fn demo_program() -> Seq<u8> {
    Seq::new(
        3584,
        |k: int|
            if k < 48 {
                DEMO_CODE@[k]
            } else {
                0u8
            },
    )
}

/// Builds the demonstration program.
pub fn get_demo_program() -> (program: [u8; 3584])
    ensures
        program@ == demo_program(),
{
    let mut program = [0u8; 3584];
    let mut k: usize = 0;
    while k < DEMO_SIZE
        invariant
            k <= DEMO_SIZE,
            forall|j: int| 0 <= j < k ==> program@[j] == DEMO_CODE@[j],
            forall|j: int| k <= j < 3584 ==> program@[j] == 0,
        decreases DEMO_SIZE - k,
    {
        let ghost copied = program@;
        program[k] = DEMO_CODE[k];
        assert(program@ == copied.update(k as int, DEMO_CODE@[k as int]));
        k += 1;
    }
    assert(program@ =~= demo_program());
    program
}

} // verus!
