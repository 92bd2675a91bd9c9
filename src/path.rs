//! Paths: a flag byte, a point count and a point stream in one of three encodings.
use vstd::prelude::*;

use crate::error::{DecodeError, ParseResult};
use crate::flags::{flag_set, HVIFFlag, HVIF_PATH_FLAG_NO_CURVES, HVIF_PATH_FLAG_USES_COMMANDS};
use crate::geometry::{
    hvif_path_coord, hvif_point, lemma_point_span, spec_coord, spec_point, Coord, HVIFPoint,
};
use crate::reader::{
    within, at, available, fits, lemma_repeat_all, lemma_repeat_err, lemma_repeat_len, lemma_repeat_span, read_u8, repeat, seq_at, spec_byte, viewed,
};

verus! {

/// One step of a path.
#[derive(Debug, Clone, Copy, PartialEq, Eq, Structural)]
pub enum HVIFPointCommand {
    /// A horizontal line from the previous x-coordinate to this one
    HLine {
        /// target x-coordinate
        x: Coord,
    },
    /// A vertical line from the previous y-coordinate to this one
    VLine {
        /// target y-coordinate
        y: Coord,
    },
    /// A straight line from the previous point to this one
    Line {
        /// target point
        point: HVIFPoint,
    },
    /// A cubic Bezier curve from the previous point to this one
    Curve {
        /// initial control point
        point_in: HVIFPoint,
        /// target point
        point: HVIFPoint,
        /// final control point
        point_out: HVIFPoint,
    },
}

/// An HVIF path, drawn between points.
#[derive(Debug)]
pub struct HVIFPath {
    /// Flags that modify the nature of this path (`CLOSED`, `USES_COMMANDS`, `NO_CURVES`)
    pub flags: u8,
    /// The commands that make up the path, in order
    pub points: Vec<HVIFPointCommand>,
}

/// What a path holds.
pub struct PathModel {
    /// The path's flag byte
    pub flags: u8,
    /// The path's commands, in order
    pub points: Seq<HVIFPointCommand>,
}

impl View for HVIFPath {
    type V = PathModel;

    open spec fn view(&self) -> PathModel {
        PathModel { flags: self.flags, points: self.points@ }
    }
}

/// Reads a straight line: one point.
pub open spec fn spec_line(d: Seq<u8>, pos: int) -> ParseResult<HVIFPointCommand> {
    match spec_point(d, pos) {
        Err(e) => Err(e),
        Ok((point, p)) => Ok((HVIFPointCommand::Line { point }, p)),
    }
}

/// Reads a curve: the target point, then the incoming and the outgoing control point.
pub open spec fn spec_curve(d: Seq<u8>, pos: int) -> ParseResult<HVIFPointCommand> {
    match spec_point(d, pos) {
        Err(e) => Err(e),
        Ok((point, p1)) => match spec_point(d, p1) {
            Err(e) => Err(e),
            Ok((point_in, p2)) => match spec_point(d, p2) {
                Err(e) => Err(e),
                Ok((point_out, p3)) => Ok((HVIFPointCommand::Curve { point_in, point, point_out }, p3)),
            },
        },
    }
}

/// Reads the body of a command of the given code.
pub open spec fn spec_command(d: Seq<u8>, pos: int, code: u8) -> ParseResult<HVIFPointCommand> {
    if code == 0 {
        match spec_coord(d, pos) {
            Err(e) => Err(e),
            Ok((x, p)) => Ok((HVIFPointCommand::HLine { x }, p)),
        }
    } else if code == 1 {
        match spec_coord(d, pos) {
            Err(e) => Err(e),
            Ok((y, p)) => Ok((HVIFPointCommand::VLine { y }, p)),
        }
    } else if code == 2 {
        spec_line(d, pos)
    } else if code == 3 {
        spec_curve(d, pos)
    } else {
        Err(DecodeError::UnknownCommandCode(code))
    }
}

/// The 2-bit code in bits `2k..2k+1` of a header byte, `0 <= k < 4`.
pub open spec fn code_in_byte(b: u8, k: int) -> u8 {
    (if k == 0 {
        b % 4
    } else if k == 1 {
        (b / 4) % 4
    } else if k == 2 {
        (b / 16) % 4
    } else {
        b / 64
    }) as u8
}

/// The number of header bytes for `n` commands: four codes to a byte.
pub open spec fn header_len(n: int) -> int {
    (n + 3) / 4
}

/// The `n` command codes of the header at `pos`, lowest bit pair of each byte first.
pub open spec fn spec_command_codes(d: Seq<u8>, pos: int, n: nat) -> Seq<u8> {
    Seq::new(n, |i: int| code_in_byte(d[pos + i / 4], i % 4))
}

/// The element reader of a command stream driven by `codes`.
pub open spec fn command_item(d: Seq<u8>, codes: Seq<u8>) -> spec_fn(int, int) -> ParseResult<HVIFPointCommand> {
    |i: int, p: int| spec_command(d, p, codes[i])
}

/// The element reader of a stream without commands: curves, or lines where `curves` is false.
pub open spec fn plain_item(d: Seq<u8>, curves: bool) -> spec_fn(int, int) -> ParseResult<HVIFPointCommand> {
    |i: int, p: int| if curves { spec_curve(d, p) } else { spec_line(d, p) }
}

/// The first code at index `i` or later that names no command, if any.
pub open spec fn first_unknown_code(codes: Seq<u8>, i: int) -> Option<u8>
    decreases codes.len() - i,
{
    if i < 0 || i >= codes.len() {
        None
    } else if codes[i] > 3 {
        Some(codes[i])
    } else {
        first_unknown_code(codes, i + 1)
    }
}

/// Reads one command for each code: all codes are checked before any body is read, and
/// the first code that names no command is the error.
pub open spec fn spec_command_stream(d: Seq<u8>, pos: int, codes: Seq<u8>) -> ParseResult<Seq<HVIFPointCommand>> {
    match first_unknown_code(codes, 0) {
        Some(code) => Err(DecodeError::UnknownCommandCode(code)),
        None => repeat(command_item(d, codes), codes.len(), pos),
    }
}

/// Reads the `n` commands of a path with the given flags.
pub open spec fn spec_path_points(d: Seq<u8>, pos: int, flags: u8, n: nat) -> ParseResult<Seq<HVIFPointCommand>> {
    if flag_set(flags, HVIF_PATH_FLAG_USES_COMMANDS) {
        if fits(d, pos, header_len(n as int)) {
            spec_command_stream(d, pos + header_len(n as int), spec_command_codes(d, pos, n))
        } else {
            Err(DecodeError::UnexpectedEof)
        }
    } else {
        repeat(plain_item(d, !flag_set(flags, HVIF_PATH_FLAG_NO_CURVES)), n, pos)
    }
}

/// The bytes a coordinate takes: one in the short form, two in the long form.
pub open spec fn coord_len(c: Coord) -> int {
    match c {
        Coord::Short(_) => 1,
        Coord::Long(_) => 2,
    }
}

/// The bytes a point takes.
pub open spec fn point_len(p: HVIFPoint) -> int {
    coord_len(p.x) + coord_len(p.y)
}

/// The bytes the body of a command takes: the sum over its coordinates.
pub open spec fn command_len(c: HVIFPointCommand) -> int {
    match c {
        HVIFPointCommand::HLine { x } => coord_len(x),
        HVIFPointCommand::VLine { y } => coord_len(y),
        HVIFPointCommand::Line { point } => point_len(point),
        HVIFPointCommand::Curve { point_in, point, point_out } => point_len(point_in) + point_len(point)
            + point_len(point_out),
    }
}

/// The bytes the bodies of a sequence of commands take.
pub open spec fn commands_len(s: Seq<HVIFPointCommand>) -> int
    decreases s.len(),
{
    if s.len() == 0 {
        0
    } else {
        commands_len(s.drop_last()) + command_len(s.last())
    }
}

/// Where `flags` clear `USES_COMMANDS`: every command is a line where `NO_CURVES` is set,
/// else every command is a curve.
pub open spec fn plain_points_follow_flags(flags: u8, points: Seq<HVIFPointCommand>) -> bool {
    !flag_set(flags, HVIF_PATH_FLAG_USES_COMMANDS) ==> forall|j: int|
        0 <= j < points.len() ==> if flag_set(flags, HVIF_PATH_FLAG_NO_CURVES) {
            #[trigger] points[j] is Line
        } else {
            points[j] is Curve
        }
}

/// A command's body takes `command_len` of what it yields.
proof fn lemma_command_len(d: Seq<u8>, p: int, code: u8)
    ensures
        spec_command(d, p, code) is Ok ==> spec_command(d, p, code)->Ok_0.1 == p + command_len(
            spec_command(d, p, code)->Ok_0.0,
        ),
        spec_line(d, p) is Ok ==> spec_line(d, p)->Ok_0.1 == p + command_len(spec_line(d, p)->Ok_0.0),
        spec_curve(d, p) is Ok ==> spec_curve(d, p)->Ok_0.1 == p + command_len(spec_curve(d, p)->Ok_0.0),
{
}

/// A stream of commands takes the sum of their lengths.
proof fn lemma_stream_len(item: spec_fn(int, int) -> ParseResult<HVIFPointCommand>, n: nat, pos: int)
    requires
        forall|i: int, p: int| #[trigger] item(i, p) is Ok ==> item(i, p)->Ok_0.1 == p + command_len(item(i, p)->Ok_0.0),
    ensures
        repeat(item, n, pos) is Ok ==> repeat(item, n, pos)->Ok_0.1 == pos + commands_len(repeat(item, n, pos)->Ok_0.0),
    decreases n,
{
    if n > 0 {
        lemma_stream_len(item, (n - 1) as nat, pos);
        let prev = repeat(item, (n - 1) as nat, pos);
        if prev is Ok {
            let (xs, p) = prev->Ok_0;
            if item(n - 1, p) is Ok {
                let x = item(n - 1, p)->Ok_0.0;
                assert(xs.push(x).drop_last() =~= xs);
            }
        }
    }
}

/// What the point stream of a path holds and takes: one command per point; the header and
/// then the bodies of the commands, byte for byte; all lines or all curves where there is no
/// command section, with their bytes bounded accordingly.
pub proof fn lemma_path_points_props(d: Seq<u8>, pos: int, flags: u8, n: nat)
    ensures
        spec_path_points(d, pos, flags, n) is Ok ==> {
            let points = spec_path_points(d, pos, flags, n)->Ok_0.0;
            let end = spec_path_points(d, pos, flags, n)->Ok_0.1;
            &&& points.len() == n
            &&& end == pos + (if flag_set(flags, HVIF_PATH_FLAG_USES_COMMANDS) {
                header_len(n as int)
            } else {
                0
            }) + commands_len(points)
            &&& plain_points_follow_flags(flags, points)
            &&& !flag_set(flags, HVIF_PATH_FLAG_USES_COMMANDS) && !flag_set(flags, HVIF_PATH_FLAG_NO_CURVES)
                ==> pos + 6 * n <= end <= pos + 12 * n
            &&& !flag_set(flags, HVIF_PATH_FLAG_USES_COMMANDS) && flag_set(flags, HVIF_PATH_FLAG_NO_CURVES)
                ==> pos + 2 * n <= end <= pos + 4 * n
        },
{
    if flag_set(flags, HVIF_PATH_FLAG_USES_COMMANDS) {
        let codes = spec_command_codes(d, pos, n);
        let item = command_item(d, codes);
        let start = pos + header_len(n as int);
        assert forall|i: int, p: int| #[trigger] item(i, p) is Ok implies item(i, p)->Ok_0.1 == p + command_len(
            item(i, p)->Ok_0.0,
        ) by {
            lemma_command_len(d, p, codes[i]);
        }
        lemma_stream_len(item, n, start);
        lemma_repeat_len(item, n, start);
    } else {
        let curves = !flag_set(flags, HVIF_PATH_FLAG_NO_CURVES);
        let item = plain_item(d, curves);
        assert forall|i: int, p: int| #[trigger] item(i, p) is Ok implies item(i, p)->Ok_0.1 == p + command_len(
            item(i, p)->Ok_0.0,
        ) by {
            lemma_command_len(d, p, 0);
        }
        lemma_stream_len(item, n, pos);
        lemma_repeat_len(item, n, pos);
        let pred = |c: HVIFPointCommand| if curves { c is Curve } else { c is Line };
        lemma_repeat_all(item, pred, n, pos);
        let lo: int = if curves { 6 } else { 2 };
        let hi: int = if curves { 12 } else { 4 };
        assert forall|i: int, p: int| #[trigger] item(i, p) is Ok implies p + lo <= item(i, p)->Ok_0.1 <= p + hi by {
            lemma_point_span(d, p);
            if curves {
                let q1 = spec_point(d, p)->Ok_0.1;
                lemma_point_span(d, q1);
                lemma_point_span(d, spec_point(d, q1)->Ok_0.1);
            }
        }
        lemma_repeat_span(item, lo, hi, n, pos);
    }
}

/// Reads a path: its flags, its point count, then its points.
pub open spec fn spec_path(d: Seq<u8>, pos: int) -> ParseResult<PathModel> {
    match spec_byte(d, pos) {
        Err(e) => Err(e),
        Ok((flags, p1)) => match spec_byte(d, p1) {
            Err(e) => Err(e),
            Ok((n, p2)) => match spec_path_points(d, p2, flags, n as nat) {
                Err(e) => Err(e),
                Ok((points, p3)) => Ok((PathModel { flags, points }, p3)),
            },
        },
    }
}

/// Reads a straight line: one point.
pub fn hvif_path_point_line(input: &[u8], pos: usize) -> (r: Result<(HVIFPointCommand, usize), DecodeError>)
    requires
        pos <= input@.len(),
    ensures
        within(r, input@),
        at(r) == spec_line(input@, pos as int),
{
    match hvif_point(input, pos) {
        Ok((point, p)) => Ok((HVIFPointCommand::Line { point }, p)),
        Err(e) => Err(e),
    }
}

/// Reads a curve: the target point, then the incoming and the outgoing control point.
pub fn hvif_path_point_curve(input: &[u8], pos: usize) -> (r: Result<(HVIFPointCommand, usize), DecodeError>)
    requires
        pos <= input@.len(),
    ensures
        within(r, input@),
        at(r) == spec_curve(input@, pos as int),
{
    let (point, p) = match hvif_point(input, pos) {
        Ok(v) => v,
        Err(e) => return Err(e),
    };
    let (point_in, p) = match hvif_point(input, p) {
        Ok(v) => v,
        Err(e) => return Err(e),
    };
    let (point_out, p) = match hvif_point(input, p) {
        Ok(v) => v,
        Err(e) => return Err(e),
    };
    Ok((HVIFPointCommand::Curve { point_in, point, point_out }, p))
}

/// Reads the body of a command of the given code.
pub fn hvif_path_command(input: &[u8], pos: usize, code: u8) -> (r: Result<(HVIFPointCommand, usize), DecodeError>)
    requires
        pos <= input@.len(),
    ensures
        within(r, input@),
        at(r) == spec_command(input@, pos as int, code),
{
    match code {
        0 => match hvif_path_coord(input, pos) {
            Ok((x, p)) => Ok((HVIFPointCommand::HLine { x }, p)),
            Err(e) => Err(e),
        },
        1 => match hvif_path_coord(input, pos) {
            Ok((y, p)) => Ok((HVIFPointCommand::VLine { y }, p)),
            Err(e) => Err(e),
        },
        2 => hvif_path_point_line(input, pos),
        3 => hvif_path_point_curve(input, pos),
        _ => Err(DecodeError::UnknownCommandCode(code)),
    }
}

/// Reads the command header of `point_count` commands and returns their codes in order.
pub fn hvif_path_command_headers(input: &[u8], pos: usize, point_count: u8) -> (r: Result<(Vec<u8>, usize), DecodeError>)
    requires
        pos <= input@.len(),
    ensures
        within(r, input@),
        match r {
            Ok((codes, q)) => fits(input@, pos as int, header_len(point_count as int))
                && codes@ == spec_command_codes(input@, pos as int, point_count as nat)
                && q == pos + header_len(point_count as int),
            Err(e) => !fits(input@, pos as int, header_len(point_count as int))
                && e == DecodeError::UnexpectedEof,
        },
{
    let command_byte_count: usize = (point_count / 4) as usize + if point_count % 4 > 0 { 1 } else { 0 };
    assert(command_byte_count == header_len(point_count as int));
    if !available(input, pos, command_byte_count) {
        return Err(DecodeError::UnexpectedEof);
    }
    let len = input.len();
    let n: usize = point_count as usize;
    let mut codes: Vec<u8> = Vec::new();
    let mut i: usize = 0;
    while i < n
        invariant
            i <= n,
            n == point_count,
            len == input@.len(),
            fits(input@, pos as int, header_len(n as int)),
            codes@ == spec_command_codes(input@, pos as int, point_count as nat).take(i as int),
        decreases n - i,
    {
        let byte: u8 = input[pos + i / 4];
        let k: usize = i % 4;
        let code: u8 = (byte >> ((2 * k) as u8)) & 3;
        proof {
            if k == 0 {
                assert((byte >> 0u8) & 3u8 == byte % 4) by (bit_vector);
            } else if k == 1 {
                assert((byte >> 2u8) & 3u8 == (byte / 4) % 4) by (bit_vector);
            } else if k == 2 {
                assert((byte >> 4u8) & 3u8 == (byte / 16) % 4) by (bit_vector);
            } else {
                assert((byte >> 6u8) & 3u8 == byte / 64) by (bit_vector);
            }
            assert(code == code_in_byte(byte, k as int));
        }
        codes.push(code);
        i = i + 1;
        assert(codes@ =~= spec_command_codes(input@, pos as int, point_count as nat).take(i as int));
    }
    assert(codes@ =~= spec_command_codes(input@, pos as int, point_count as nat));
    Ok((codes, pos + command_byte_count))
}

/// Reads one command for each code, in order. Every code is checked first: where some
/// code is above 3, the result is `UnknownCommandCode` of the first such code, whatever
/// the input holds.
pub fn hvif_path_with_commands(input: &[u8], pos: usize, codes: &Vec<u8>) -> (r: Result<(Vec<HVIFPointCommand>, usize), DecodeError>)
    requires
        pos <= input@.len(),
    ensures
        within(r, input@),
        seq_at(r) == spec_command_stream(input@, pos as int, codes@),
        first_unknown_code(codes@, 0) matches Some(code) ==> r == Err::<(Vec<HVIFPointCommand>, usize), DecodeError>(
            DecodeError::UnknownCommandCode(code),
        ),
{
    let mut k: usize = 0;
    while k < codes.len()
        invariant
            k <= codes@.len(),
            first_unknown_code(codes@, 0) == first_unknown_code(codes@, k as int),
        decreases codes@.len() - k,
    {
        if codes[k] > 3 {
            return Err(DecodeError::UnknownCommandCode(codes[k]));
        }
        k = k + 1;
    }
    let ghost item = command_item(input@, codes@);
    let mut points: Vec<HVIFPointCommand> = Vec::new();
    let mut p: usize = pos;
    let mut i: usize = 0;
    while i < codes.len()
        invariant
            p <= input@.len(),
            i <= codes@.len(),
            first_unknown_code(codes@, 0) is None,
            item == command_item(input@, codes@),
            repeat(item, i as nat, pos as int) == Ok::<(Seq<HVIFPointCommand>, int), DecodeError>((points@, p as int)),
        decreases codes@.len() - i,
    {
        match hvif_path_command(input, p, codes[i]) {
            Ok((point, q)) => {
                points.push(point);
                p = q;
            },
            Err(e) => {
                proof {
                    lemma_repeat_err(item, (i + 1) as nat, codes@.len(), pos as int);
                }
                return Err(e);
            },
        }
        i = i + 1;
    }
    Ok((points, p))
}

/// Reads the `point_count` commands of a path whose flags are `flags`.
pub fn hvif_path_parser_from_flags(input: &[u8], pos: usize, flags: u8, point_count: u8) -> (r: Result<(Vec<HVIFPointCommand>, usize), DecodeError>)
    requires
        pos <= input@.len(),
    ensures
        within(r, input@),
        seq_at(r) == spec_path_points(input@, pos as int, flags, point_count as nat),
        r matches Ok((points, end)) ==> {
            &&& points@.len() == point_count
            &&& end == pos + (if flag_set(flags, HVIF_PATH_FLAG_USES_COMMANDS) {
                header_len(point_count as int)
            } else {
                0
            }) + commands_len(points@)
            &&& plain_points_follow_flags(flags, points@)
            &&& !flag_set(flags, HVIF_PATH_FLAG_USES_COMMANDS) && !flag_set(flags, HVIF_PATH_FLAG_NO_CURVES)
                ==> pos + 6 * point_count <= end <= pos + 12 * point_count
            &&& !flag_set(flags, HVIF_PATH_FLAG_USES_COMMANDS) && flag_set(flags, HVIF_PATH_FLAG_NO_CURVES)
                ==> pos + 2 * point_count <= end <= pos + 4 * point_count
        },
{
    proof {
        lemma_path_points_props(input@, pos as int, flags, point_count as nat);
    }
    if HVIFFlag(HVIF_PATH_FLAG_USES_COMMANDS).is_set_on(flags) {
        match hvif_path_command_headers(input, pos, point_count) {
            Ok((codes, q)) => hvif_path_with_commands(input, q, &codes),
            Err(e) => Err(e),
        }
    } else {
        let curves = !HVIFFlag(HVIF_PATH_FLAG_NO_CURVES).is_set_on(flags);
        let ghost item = plain_item(input@, curves);
        let n: usize = point_count as usize;
        let mut points: Vec<HVIFPointCommand> = Vec::new();
        let mut p: usize = pos;
        let mut i: usize = 0;
        while i < n
            invariant
                p <= input@.len(),
                i <= n,
                n == point_count,
                item == plain_item(input@, curves),
                !flag_set(flags, HVIF_PATH_FLAG_USES_COMMANDS),
                curves == !flag_set(flags, HVIF_PATH_FLAG_NO_CURVES),
                repeat(item, i as nat, pos as int) == Ok::<(Seq<HVIFPointCommand>, int), DecodeError>((points@, p as int)),
            decreases n - i,
        {
            let next = if curves {
                hvif_path_point_curve(input, p)
            } else {
                hvif_path_point_line(input, p)
            };
            match next {
                Ok((point, q)) => {
                    points.push(point);
                    p = q;
                },
                Err(e) => {
                    proof {
                        lemma_repeat_err(item, (i + 1) as nat, n as nat, pos as int);
                    }
                    return Err(e);
                },
            }
            i = i + 1;
        }
        Ok((points, p))
    }
}

/// Reads a path: its flags, its point count, then its points.
pub fn hvif_path(input: &[u8], pos: usize) -> (r: Result<(HVIFPath, usize), DecodeError>)
    requires
        pos <= input@.len(),
    ensures
        within(r, input@),
        viewed(r) == spec_path(input@, pos as int),
{
    let (flags, p) = match read_u8(input, pos) {
        Ok(v) => v,
        Err(e) => return Err(e),
    };
    let (point_count, p) = match read_u8(input, p) {
        Ok(v) => v,
        Err(e) => return Err(e),
    };
    match hvif_path_parser_from_flags(input, p, flags, point_count) {
        Ok((points, q)) => Ok((HVIFPath { flags, points }, q)),
        Err(e) => Err(e),
    }
}

} // verus!
