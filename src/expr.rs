//! The transform expression layer: a closed set of compound operations,
//! read from an explicit list of tokens.
//!
//! Each operation names its operands (frames, points, an angle) by token, so
//! that the order in which they reach compose, inverse and apply is fixed by
//! the operation, not by the caller.
use vstd::prelude::*;

verus! {

/// A compound operation over frames and points, with its operands by name.
#[derive(Debug, PartialEq, Eq)]
pub enum Command {
    /// `apply_transform T , p`: the point `p` carried by frame `T`.
    ApplyTransform { frame: String, point: String },
    /// `compose T1 , T2`: `T1.compose(T2)`, that is `T2 · T1`.
    Compose { first: String, second: String },
    /// `to_frame p , from : A , to : B`: `inverse(B) · A · p`.
    ToFrame { point: String, from: String, to: String },
    /// `rotate A wrt B` or `rotate A , wrt B`: `B · A · inverse(B)`.
    RotateWrt { frame: String, reference: String },
    /// `rotate A , by d , wrt B`: `A` turned by `d` degrees about Z, then
    /// conjugated by `B`.
    RotateByWrt { frame: String, degrees: String, reference: String },
}

/// Why a token list is not a command.
#[derive(Debug, PartialEq, Eq)]
pub enum ExprError {
    /// The list holds no token.
    Empty,
    /// The first token names no known operation.
    InvalidOperationTag(String),
    /// The operation is known but its operands do not follow its form.
    Malformed,
    /// An operand names no frame of the table.
    UnknownFrame(String),
    /// An operand names no point of the table.
    UnknownPoint(String),
}

/// A command whose operands have been looked up: each frame and point is an
/// index into the caller's tables.
#[derive(Debug, PartialEq, Eq)]
pub enum Plan {
    ApplyTransform { frame: usize, point: usize },
    Compose { first: usize, second: usize },
    ToFrame { point: usize, from: usize, to: usize },
    RotateWrt { frame: usize, reference: usize },
    RotateByWrt { frame: usize, degrees: String, reference: usize },
}

/// The token `t` is the word `w`.
pub open spec fn is_word(t: String, w: &str) -> bool {
    t@ == w@
}

/// A token that can stand for an operand: not empty, not a separator.
pub open spec fn is_operand(t: String) -> bool {
    &&& t@ != ""@
    &&& t@ != ","@
    &&& t@ != ":"@
}

/// The operation tags that the layer knows.
pub open spec fn is_known_tag(t: String) -> bool {
    ||| is_word(t, "apply_transform")
    ||| is_word(t, "compose")
    ||| is_word(t, "to_frame")
    ||| is_word(t, "rotate")
}

/// `c` is the command that the tokens `toks` spell out.
pub open spec fn spells(toks: Seq<String>, c: Command) -> bool {
    toks.len() > 0 && {
        let a = toks.drop_first();
        match c {
            Command::ApplyTransform { frame, point } => {
                &&& is_word(toks[0], "apply_transform")
                &&& a.len() == 3
                &&& is_operand(a[0]) && is_word(a[1], ",") && is_operand(a[2])
                &&& frame@ == a[0]@ && point@ == a[2]@
            },
            Command::Compose { first, second } => {
                &&& is_word(toks[0], "compose")
                &&& a.len() == 3
                &&& is_operand(a[0]) && is_word(a[1], ",") && is_operand(a[2])
                &&& first@ == a[0]@ && second@ == a[2]@
            },
            Command::ToFrame { point, from, to } => {
                &&& is_word(toks[0], "to_frame")
                &&& a.len() == 9
                &&& is_operand(a[0]) && is_word(a[1], ",")
                &&& is_word(a[2], "from") && is_word(a[3], ":") && is_operand(a[4])
                &&& is_word(a[5], ",")
                &&& is_word(a[6], "to") && is_word(a[7], ":") && is_operand(a[8])
                &&& point@ == a[0]@ && from@ == a[4]@ && to@ == a[8]@
            },
            Command::RotateWrt { frame, reference } => {
                &&& is_word(toks[0], "rotate")
                &&& {
                    ||| (a.len() == 3 && is_word(a[1], "wrt"))
                    ||| (a.len() == 4 && is_word(a[1], ",") && is_word(a[2], "wrt"))
                }
                &&& is_operand(a[0]) && is_operand(a.last())
                &&& frame@ == a[0]@ && reference@ == a.last()@
            },
            Command::RotateByWrt { frame, degrees, reference } => {
                &&& is_word(toks[0], "rotate")
                &&& a.len() == 7
                &&& is_operand(a[0]) && is_word(a[1], ",")
                &&& is_word(a[2], "by") && is_operand(a[3]) && is_word(a[4], ",")
                &&& is_word(a[5], "wrt") && is_operand(a[6])
                &&& frame@ == a[0]@ && degrees@ == a[3]@ && reference@ == a[6]@
            },
        }
    }
}

fn word_is(t: &String, w: &str) -> (r: bool)
    ensures
        r == is_word(*t, w),
{
    let owned = w.to_owned();
    *t == owned
}

fn operand_ok(t: &String) -> (r: bool)
    ensures
        r == is_operand(*t),
{
    !word_is(t, "") && !word_is(t, ",") && !word_is(t, ":")
}

pub(crate) proof fn lemma_tags_differ()
    ensures
        "apply_transform"@ != "compose"@,
        "apply_transform"@ != "to_frame"@,
        "apply_transform"@ != "rotate"@,
        "compose"@ != "to_frame"@,
        "compose"@ != "rotate"@,
        "to_frame"@ != "rotate"@,
        ","@ != "wrt"@,
{
    reveal_strlit("apply_transform");
    reveal_strlit("compose");
    reveal_strlit("to_frame");
    reveal_strlit("rotate");
    reveal_strlit(",");
    reveal_strlit("wrt");
    assert("apply_transform"@.len() != "compose"@.len());
    assert("apply_transform"@.len() != "to_frame"@.len());
    assert("apply_transform"@.len() != "rotate"@.len());
    assert("compose"@[0] != "to_frame"@[0]);
    assert("compose"@.len() != "rotate"@.len());
    assert("to_frame"@.len() != "rotate"@.len());
    assert(","@.len() != "wrt"@.len());
}

/// Two commands spelled by the same tokens name the same operands.
pub proof fn lemma_spelling_is_unique(toks: Seq<String>, c1: Command, c2: Command)
    requires
        spells(toks, c1),
        spells(toks, c2),
    ensures
        operands(c1).len() == operands(c2).len(),
        forall|k: int|
            0 <= k < operands(c1).len() ==> (#[trigger] operands(c1)[k]).0@ == operands(c2)[k].0@
                && operands(c1)[k].1 == operands(c2)[k].1,
{
    lemma_tags_differ();
}

/// Reads a command from a token list whose first token is the operation tag.
///
/// Separators are tokens of their own: `rotate A , by 90 , wrt B` is the list
/// `["rotate", "A", ",", "by", "90", ",", "wrt", "B"]`.
pub fn parse_command(tokens: &Vec<String>) -> (r: Result<Command, ExprError>)
    ensures
        match r {
            Ok(c) => spells(tokens@, c),
            Err(ExprError::Empty) => tokens@.len() == 0,
            Err(ExprError::InvalidOperationTag(t)) => {
                &&& tokens@.len() > 0
                &&& !is_known_tag(tokens@[0])
                &&& t@ == tokens@[0]@
            },
            Err(ExprError::Malformed) => {
                &&& tokens@.len() > 0
                &&& is_known_tag(tokens@[0])
                &&& forall|c: Command| !spells(tokens@, c)
            },
            Err(_) => false,
        },
{
    proof {
        lemma_tags_differ();
    }
    let n = tokens.len();
    if n == 0 {
        return Err(ExprError::Empty);
    }
    let tag = &tokens[0];
    if word_is(tag, "apply_transform") || word_is(tag, "compose") {
        if n == 4 && operand_ok(&tokens[1]) && word_is(&tokens[2], ",") && operand_ok(&tokens[3]) {
            let x = tokens[1].clone();
            let y = tokens[3].clone();
            if word_is(tag, "compose") {
                Ok(Command::Compose { first: x, second: y })
            } else {
                Ok(Command::ApplyTransform { frame: x, point: y })
            }
        } else {
            Err(ExprError::Malformed)
        }
    } else if word_is(tag, "to_frame") {
        if n == 10 && operand_ok(&tokens[1]) && word_is(&tokens[2], ",") && word_is(&tokens[3], "from")
            && word_is(&tokens[4], ":") && operand_ok(&tokens[5]) && word_is(&tokens[6], ",")
            && word_is(&tokens[7], "to") && word_is(&tokens[8], ":") && operand_ok(&tokens[9]) {
            Ok(
                Command::ToFrame {
                    point: tokens[1].clone(),
                    from: tokens[5].clone(),
                    to: tokens[9].clone(),
                },
            )
        } else {
            Err(ExprError::Malformed)
        }
    } else if word_is(tag, "rotate") {
        if n >= 4 && operand_ok(&tokens[1]) && operand_ok(&tokens[n - 1]) && (
        (n == 4 && word_is(&tokens[2], "wrt")) || (n == 5 && word_is(&tokens[2], ",") && word_is(
            &tokens[3],
            "wrt",
        ))) {
            Ok(Command::RotateWrt { frame: tokens[1].clone(), reference: tokens[n - 1].clone() })
        } else if n == 8 && operand_ok(&tokens[1]) && word_is(&tokens[2], ",") && word_is(
            &tokens[3],
            "by",
        ) && operand_ok(&tokens[4]) && word_is(&tokens[5], ",") && word_is(&tokens[6], "wrt")
            && operand_ok(&tokens[7]) {
            Ok(
                Command::RotateByWrt {
                    frame: tokens[1].clone(),
                    degrees: tokens[4].clone(),
                    reference: tokens[7].clone(),
                },
            )
        } else {
            Err(ExprError::Malformed)
        }
    } else {
        Err(ExprError::InvalidOperationTag(tag.clone()))
    }
}

/// `i` is the first position of `names` that holds `n`.
pub open spec fn first_index(names: Seq<String>, n: String, i: int) -> bool {
    &&& 0 <= i < names.len()
    &&& names[i]@ == n@
    &&& forall|j: int| 0 <= j < i ==> names[j]@ != n@
}

/// `names` holds `n` nowhere.
pub open spec fn absent(names: Seq<String>, n: String) -> bool {
    forall|j: int| 0 <= j < names.len() ==> names[j]@ != n@
}

/// The first position of `n` in `names`, if any.
pub fn find_name(names: &Vec<String>, n: &String) -> (r: Option<usize>)
    ensures
        match r {
            Some(i) => first_index(names@, *n, i as int),
            None => absent(names@, *n),
        },
{
    let mut i: usize = 0;
    while i < names.len()
        invariant
            0 <= i <= names@.len(),
            forall|j: int| 0 <= j < i ==> names@[j]@ != n@,
        decreases names@.len() - i,
    {
        if names[i] == *n {
            return Some(i);
        }
        i = i + 1;
    }
    None
}

/// `r` is how a lookup of `n` in `names` ends: its first position, or the
/// error that `missing` builds from the name.
pub open spec fn looked_up(
    names: Seq<String>,
    n: String,
    r: Result<usize, ExprError>,
    frame: bool,
) -> bool {
    match r {
        Ok(i) => first_index(names, n, i as int),
        Err(ExprError::UnknownFrame(m)) => frame && absent(names, n) && m@ == n@,
        Err(ExprError::UnknownPoint(m)) => !frame && absent(names, n) && m@ == n@,
        Err(_) => false,
    }
}

fn lookup(names: &Vec<String>, n: &String, frame: bool) -> (r: Result<usize, ExprError>)
    ensures
        looked_up(names@, *n, r, frame),
{
    match find_name(names, n) {
        Some(i) => Ok(i),
        None => if frame {
            Err(ExprError::UnknownFrame(n.clone()))
        } else {
            Err(ExprError::UnknownPoint(n.clone()))
        },
    }
}

/// `p` is `c` with each operand replaced by its first position in the tables.
pub open spec fn resolves_to(c: Command, frames: Seq<String>, points: Seq<String>, p: Plan) -> bool {
    match (c, p) {
        (Command::ApplyTransform { frame, point }, Plan::ApplyTransform { frame: f, point: q }) => {
            first_index(frames, frame, f as int) && first_index(points, point, q as int)
        },
        (Command::Compose { first, second }, Plan::Compose { first: f, second: g }) => {
            first_index(frames, first, f as int) && first_index(frames, second, g as int)
        },
        (Command::ToFrame { point, from, to }, Plan::ToFrame { point: q, from: f, to: g }) => {
            &&& first_index(points, point, q as int)
            &&& first_index(frames, from, f as int)
            &&& first_index(frames, to, g as int)
        },
        (Command::RotateWrt { frame, reference }, Plan::RotateWrt { frame: f, reference: g }) => {
            first_index(frames, frame, f as int) && first_index(frames, reference, g as int)
        },
        (
            Command::RotateByWrt { frame, degrees, reference },
            Plan::RotateByWrt { frame: f, degrees: d, reference: g },
        ) => {
            &&& first_index(frames, frame, f as int)
            &&& d@ == degrees@
            &&& first_index(frames, reference, g as int)
        },
        _ => false,
    }
}

/// The operands of `c`, in the order in which they are looked up, each with
/// whether it names a frame (else a point).
pub open spec fn operands(c: Command) -> Seq<(String, bool)> {
    match c {
        Command::ApplyTransform { frame, point } => seq![(frame, true), (point, false)],
        Command::Compose { first, second } => seq![(first, true), (second, true)],
        Command::ToFrame { point, from, to } => seq![(point, false), (from, true), (to, true)],
        Command::RotateWrt { frame, reference } => seq![(frame, true), (reference, true)],
        Command::RotateByWrt { frame, reference, .. } => seq![(frame, true), (reference, true)],
    }
}

/// The operand `o` can be found in its table.
pub open spec fn found(o: (String, bool), frames: Seq<String>, points: Seq<String>) -> bool {
    if o.1 {
        !absent(frames, o.0)
    } else {
        !absent(points, o.0)
    }
}

/// The error that the first missing operand among `os` gives.
pub open spec fn reports_first_missing(
    os: Seq<(String, bool)>,
    frames: Seq<String>,
    points: Seq<String>,
    e: ExprError,
) -> bool {
    exists|k: int|
        #![trigger os[k]]
        0 <= k < os.len() && !found(os[k], frames, points) && (forall|j: int|
            0 <= j < k ==> found(os[j], frames, points)) && match e {
            ExprError::UnknownFrame(m) => os[k].1 && m@ == os[k].0@,
            ExprError::UnknownPoint(m) => !os[k].1 && m@ == os[k].0@,
            _ => false,
        }
}

/// Looks up the operands of `c`: frames in `frames`, points in `points`.
pub fn resolve(c: &Command, frames: &Vec<String>, points: &Vec<String>) -> (r: Result<
    Plan,
    ExprError,
>)
    ensures
        match r {
            Ok(p) => resolves_to(*c, frames@, points@, p),
            Err(e) => reports_first_missing(operands(*c), frames@, points@, e),
        },
        r is Ok <==> forall|k: int|
            0 <= k < operands(*c).len() ==> found(#[trigger] operands(*c)[k], frames@, points@),
{
    match c {
        Command::ApplyTransform { frame, point } => {
            let f = lookup(frames, frame, true);
            if f.is_err() {
                assert(!found(operands(*c)[0], frames@, points@));
                return Err(f.unwrap_err());
            }
            let q = lookup(points, point, false);
            if q.is_err() {
                assert(found(operands(*c)[0], frames@, points@));
                assert(!found(operands(*c)[1], frames@, points@));
                return Err(q.unwrap_err());
            }
            Ok(Plan::ApplyTransform { frame: f.unwrap(), point: q.unwrap() })
        },
        Command::Compose { first, second } => {
            let f = lookup(frames, first, true);
            if f.is_err() {
                assert(!found(operands(*c)[0], frames@, points@));
                return Err(f.unwrap_err());
            }
            let g = lookup(frames, second, true);
            if g.is_err() {
                assert(found(operands(*c)[0], frames@, points@));
                assert(!found(operands(*c)[1], frames@, points@));
                return Err(g.unwrap_err());
            }
            Ok(Plan::Compose { first: f.unwrap(), second: g.unwrap() })
        },
        Command::ToFrame { point, from, to } => {
            let q = lookup(points, point, false);
            if q.is_err() {
                assert(!found(operands(*c)[0], frames@, points@));
                return Err(q.unwrap_err());
            }
            let f = lookup(frames, from, true);
            if f.is_err() {
                assert(found(operands(*c)[0], frames@, points@));
                assert(!found(operands(*c)[1], frames@, points@));
                return Err(f.unwrap_err());
            }
            let g = lookup(frames, to, true);
            if g.is_err() {
                assert(found(operands(*c)[0], frames@, points@));
                assert(found(operands(*c)[1], frames@, points@));
                assert(!found(operands(*c)[2], frames@, points@));
                return Err(g.unwrap_err());
            }
            Ok(Plan::ToFrame { point: q.unwrap(), from: f.unwrap(), to: g.unwrap() })
        },
        Command::RotateWrt { frame, reference } => {
            let f = lookup(frames, frame, true);
            if f.is_err() {
                assert(!found(operands(*c)[0], frames@, points@));
                return Err(f.unwrap_err());
            }
            let g = lookup(frames, reference, true);
            if g.is_err() {
                assert(found(operands(*c)[0], frames@, points@));
                assert(!found(operands(*c)[1], frames@, points@));
                return Err(g.unwrap_err());
            }
            Ok(Plan::RotateWrt { frame: f.unwrap(), reference: g.unwrap() })
        },
        Command::RotateByWrt { frame, degrees, reference } => {
            let f = lookup(frames, frame, true);
            if f.is_err() {
                assert(!found(operands(*c)[0], frames@, points@));
                return Err(f.unwrap_err());
            }
            let g = lookup(frames, reference, true);
            if g.is_err() {
                assert(found(operands(*c)[0], frames@, points@));
                assert(!found(operands(*c)[1], frames@, points@));
                return Err(g.unwrap_err());
            }
            Ok(
                Plan::RotateByWrt {
                    frame: f.unwrap(),
                    degrees: degrees.clone(),
                    reference: g.unwrap(),
                },
            )
        },
    }
}

} // verus!
