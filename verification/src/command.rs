//! Commands, and the static classification of a command's reply type.
use vstd::prelude::*;
use crate::value::ExpectedReturnType;

verus! {

/// A single command for the store: an opcode followed by its arguments, as
/// binary-safe strings. The first argument is the opcode; the client never
/// mutates a command, it only reads the opcode to classify the reply.
#[derive(Clone, PartialEq, Debug)]
pub struct Command {
    /// The opcode and the arguments, in order; `args[0]` is the opcode.
    pub args: Vec<Vec<u8>>,
}

/// ASCII upper-case folding of one byte.
pub open spec fn ascii_upper(b: u8) -> u8 {
    if 97 <= b && b <= 122 {
        (b - 32) as u8
    } else {
        b
    }
}

/// ASCII upper-case folding of a byte string.
pub open spec fn upper_bytes(s: Seq<u8>) -> Seq<u8> {
    s.map_values(|b: u8| ascii_upper(b))
}

/// The classification of an upper-case-folded opcode: which semantic reply
/// type the command calls for, if any.
pub open spec fn expected_of_op(op: Seq<u8>) -> Option<ExpectedReturnType> {
    if op == seq![72u8, 71u8, 69u8, 84u8, 65u8, 76u8, 76u8]
        || op == seq![88u8, 82u8, 69u8, 65u8, 68u8] {
        Some(ExpectedReturnType::Mapping)
    } else if op == seq![73u8, 78u8, 67u8, 82u8, 66u8, 89u8, 70u8, 76u8, 79u8, 65u8, 84u8]
        || op == seq![72u8, 73u8, 78u8, 67u8, 82u8, 66u8, 89u8, 70u8, 76u8, 79u8, 65u8, 84u8] {
        Some(ExpectedReturnType::Double)
    } else if op == seq![72u8, 69u8, 88u8, 73u8, 83u8, 84u8, 83u8]
        || op == seq![69u8, 88u8, 80u8, 73u8, 82u8, 69u8]
        || op == seq![69u8, 88u8, 80u8, 73u8, 82u8, 69u8, 65u8, 84u8]
        || op == seq![80u8, 69u8, 88u8, 80u8, 73u8, 82u8, 69u8]
        || op == seq![80u8, 69u8, 88u8, 80u8, 73u8, 82u8, 69u8, 65u8, 84u8] {
        Some(ExpectedReturnType::Boolean)
    } else {
        None
    }
}

/// The classification of a whole argument list: the opcode is the first
/// argument, compared case-insensitively; a command with no arguments has no
/// expected type.
pub open spec fn expected_of(args: Seq<Seq<u8>>) -> Option<ExpectedReturnType> {
    if args.len() == 0 {
        None
    } else {
        expected_of_op(upper_bytes(args[0]))
    }
}

/// Whether two byte strings are equal.
fn bytes_eq(a: &Vec<u8>, b: &Vec<u8>) -> (r: bool)
    ensures
        r == (a@ == b@),
{
    if a.len() != b.len() {
        proof {
            assert(a@.len() != b@.len());
        }
        return false;
    }
    let n = a.len();
    let mut i: usize = 0;
    while i < n
        invariant
            n == a@.len() && n == b@.len(),
            0 <= i <= n,
            forall|j: int| 0 <= j < i ==> a@[j] == b@[j],
        decreases n - i,
    {
        if a[i] != b[i] {
            return false;
        }
        i = i + 1;
    }
    proof {
        assert(a@ =~= b@);
    }
    true
}

/// ASCII upper-case folding of a byte string.
fn to_upper(v: &Vec<u8>) -> (r: Vec<u8>)
    ensures
        r@ == upper_bytes(v@),
{
    let mut out: Vec<u8> = Vec::new();
    let n = v.len();
    let mut i: usize = 0;
    while i < n
        invariant
            n == v@.len(),
            0 <= i <= n,
            out@.len() == i,
            forall|j: int| 0 <= j < i ==> out@[j] == ascii_upper(v@[j]),
        decreases n - i,
    {
        let b = v[i];
        if 97 <= b && b <= 122 {
            out.push(b - 32);
        } else {
            out.push(b);
        }
        i = i + 1;
    }
    proof {
        assert(out@ =~= upper_bytes(v@));
    }
    out
}

/// The semantic reply type a command calls for, from its opcode alone. The
/// opcode is matched case-insensitively; most commands have no expected type
/// and their replies pass through unchanged.
pub fn expected_type_for_cmd(cmd: &Command) -> (r: Option<ExpectedReturnType>)
    ensures
        r == expected_of(cmd.args.deep_view()),
{
    if cmd.args.len() == 0 {
        return None;
    }
    let op = to_upper(&cmd.args[0]);
    proof {
        assert(cmd.args.deep_view()[0] == cmd.args[0]@);
    }
    let hgetall: Vec<u8> = vec![72u8, 71u8, 69u8, 84u8, 65u8, 76u8, 76u8];
    let xread: Vec<u8> = vec![88u8, 82u8, 69u8, 65u8, 68u8];
    let incrbyfloat: Vec<u8> = vec![73u8, 78u8, 67u8, 82u8, 66u8, 89u8, 70u8, 76u8, 79u8, 65u8, 84u8];
    let hincrbyfloat: Vec<u8> = vec![72u8, 73u8, 78u8, 67u8, 82u8, 66u8, 89u8, 70u8, 76u8, 79u8, 65u8, 84u8];
    let hexists: Vec<u8> = vec![72u8, 69u8, 88u8, 73u8, 83u8, 84u8, 83u8];
    let expire: Vec<u8> = vec![69u8, 88u8, 80u8, 73u8, 82u8, 69u8];
    let expireat: Vec<u8> = vec![69u8, 88u8, 80u8, 73u8, 82u8, 69u8, 65u8, 84u8];
    let pexpire: Vec<u8> = vec![80u8, 69u8, 88u8, 80u8, 73u8, 82u8, 69u8];
    let pexpireat: Vec<u8> = vec![80u8, 69u8, 88u8, 80u8, 73u8, 82u8, 69u8, 65u8, 84u8];
    if bytes_eq(&op, &hgetall) || bytes_eq(&op, &xread) {
        Some(ExpectedReturnType::Mapping)
    } else if bytes_eq(&op, &incrbyfloat) || bytes_eq(&op, &hincrbyfloat) {
        Some(ExpectedReturnType::Double)
    } else if bytes_eq(&op, &hexists)
        || bytes_eq(&op, &expire)
        || bytes_eq(&op, &expireat)
        || bytes_eq(&op, &pexpire)
        || bytes_eq(&op, &pexpireat) {
        Some(ExpectedReturnType::Boolean)
    } else {
        None
    }
}

} // verus!
