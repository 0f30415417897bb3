//! 36-byte frame builder for XU selector `0x02`.
//!
//! ```text
//! byte  0..1   frame id         = [0xaa, 0x25]   (fixed)
//! byte  2..3   sequence_nr      (per-command)
//! byte  4..5   segment size     = [0x0c, 0x00]   (fixed)
//! byte  6..7   checksum         (per-command)
//! byte  8..13  function_group   (6 bytes, subsystem id)
//! byte 14..19  command          (6 bytes, op + value)
//! byte 20..35  appendix         (16 bytes, zero unless a preset recall)
//! ```

use vstd::prelude::*;

verus! {

/// Fixed frame leader on every selector-0x02 write.
pub const FRAME_ID: [u8; 2] = [0xaa, 0x25];

/// Fixed segment size: 12 bytes of payload (function group + command).
pub const SEGMENT_SIZE: [u8; 2] = [0x0c, 0x00];

/// Length of a selector-0x02 frame.
pub const FRAME_LEN: usize = 36;

/// 16-byte appendix for preset recall frames: four little-endian
/// IEEE-754 `1.0` single-precision values (`00 00 80 3f` four times).
pub const PRESET_RECALL_APPENDIX: [u8; 16] = [
    0x00, 0x00, 0x80, 0x3f, 0x00, 0x00, 0x80, 0x3f, 0x00, 0x00, 0x80, 0x3f, 0x00, 0x00, 0x80, 0x3f,
];

/// Sixteen zero bytes, the appendix of every frame but a preset recall.
pub open spec fn zero_appendix() -> Seq<u8> {
    Seq::new(16, |i: int| 0u8)
}

/// The appendix bytes a frame carries for an optional appendix.
pub open spec fn appendix_bytes(appendix: Option<[u8; 16]>) -> Seq<u8> {
    match appendix {
        Some(a) => a@,
        None => zero_appendix(),
    }
}

/// The byte layout of a selector-0x02 frame.
pub open spec fn frame_spec(
    function_group: Seq<u8>,
    sequence_nr: Seq<u8>,
    checksum: Seq<u8>,
    command: Seq<u8>,
    appendix: Seq<u8>,
) -> Seq<u8> {
    seq![0xaau8, 0x25u8] + sequence_nr + seq![0x0cu8, 0x00u8] + checksum + function_group + command
        + appendix
}

/// Compose the 36-byte frame for a selector-0x02 `SET_CUR`.
///
/// `appendix` is `None` for 16 zero bytes (the common case); preset
/// recalls pass [`PRESET_RECALL_APPENDIX`].
pub fn build(
    function_group: [u8; 6],
    sequence_nr: [u8; 2],
    checksum: [u8; 2],
    command: [u8; 6],
    appendix: Option<[u8; 16]>,
) -> (out: [u8; 36])
    ensures
        out@ == frame_spec(
            function_group@,
            sequence_nr@,
            checksum@,
            command@,
            appendix_bytes(appendix),
        ),
{
    let app: [u8; 16] = match appendix {
        Some(a) => a,
        None => [0u8, 0, 0, 0, 0, 0, 0, 0, 0, 0, 0, 0, 0, 0, 0, 0],
    };
    let out: [u8; 36] = [
        FRAME_ID[0],
        FRAME_ID[1],
        sequence_nr[0],
        sequence_nr[1],
        SEGMENT_SIZE[0],
        SEGMENT_SIZE[1],
        checksum[0],
        checksum[1],
        function_group[0],
        function_group[1],
        function_group[2],
        function_group[3],
        function_group[4],
        function_group[5],
        command[0],
        command[1],
        command[2],
        command[3],
        command[4],
        command[5],
        app[0],
        app[1],
        app[2],
        app[3],
        app[4],
        app[5],
        app[6],
        app[7],
        app[8],
        app[9],
        app[10],
        app[11],
        app[12],
        app[13],
        app[14],
        app[15],
    ];
    assert(app@ =~= appendix_bytes(appendix));
    assert(out@ =~= frame_spec(
        function_group@,
        sequence_nr@,
        checksum@,
        command@,
        appendix_bytes(appendix),
    ));
    out
}

/// Every frame is 36 bytes, starts with the fixed leader, carries the
/// fixed segment size at bytes 4..6, and places each field at its
/// offset.
pub proof fn lemma_frame_layout(
    function_group: Seq<u8>,
    sequence_nr: Seq<u8>,
    checksum: Seq<u8>,
    command: Seq<u8>,
    appendix: Seq<u8>,
)
    requires
        function_group.len() == 6,
        sequence_nr.len() == 2,
        checksum.len() == 2,
        command.len() == 6,
        appendix.len() == 16,
    ensures
        ({
            let f = frame_spec(function_group, sequence_nr, checksum, command, appendix);
            &&& f.len() == 36
            &&& f.subrange(0, 2) == seq![0xaau8, 0x25u8]
            &&& f.subrange(2, 4) == sequence_nr
            &&& f.subrange(4, 6) == seq![0x0cu8, 0x00u8]
            &&& f.subrange(6, 8) == checksum
            &&& f.subrange(8, 14) == function_group
            &&& f.subrange(14, 20) == command
            &&& f.subrange(20, 36) == appendix
        }),
{
    let f = frame_spec(function_group, sequence_nr, checksum, command, appendix);
    assert(f.subrange(0, 2) =~= seq![0xaau8, 0x25u8]);
    assert(f.subrange(2, 4) =~= sequence_nr);
    assert(f.subrange(4, 6) =~= seq![0x0cu8, 0x00u8]);
    assert(f.subrange(6, 8) =~= checksum);
    assert(f.subrange(8, 14) =~= function_group);
    assert(f.subrange(14, 20) =~= command);
    assert(f.subrange(20, 36) =~= appendix);
}

/// Leaving the appendix out and passing sixteen explicit zero bytes
/// build the same frame.
pub proof fn lemma_absent_appendix_is_zero(
    function_group: [u8; 6],
    sequence_nr: [u8; 2],
    checksum: [u8; 2],
    command: [u8; 6],
    zeros: [u8; 16],
)
    requires
        forall|i: int| 0 <= i < 16 ==> zeros[i] == 0,
    ensures
        frame_spec(function_group@, sequence_nr@, checksum@, command@, appendix_bytes(None))
            == frame_spec(
            function_group@,
            sequence_nr@,
            checksum@,
            command@,
            appendix_bytes(Some(zeros)),
        ),
{
    assert(zeros@ =~= zero_appendix());
}

} // verus!
