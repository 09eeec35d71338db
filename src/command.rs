use vstd::prelude::*;
use vstd::string::StringSliceAdditionalSpecFns;

verus! {

/// The byte that ends a command's name.
pub const OPEN_PAREN: u8 = 0x28;

/// The position of the first `(` in `line`, or the line's length when it holds none.
pub open spec fn name_end(line: Seq<u8>) -> int
    decreases line.len(),
{
    if line.len() == 0 {
        0
    } else if line[0] == OPEN_PAREN {
        0
    } else {
        1 + name_end(line.drop_first())
    }
}

/// The name of a command line: what precedes its first `(`, or the whole line
/// (terminator included) when it holds none.
pub open spec fn name_of(line: Seq<u8>) -> Seq<u8> {
    line.take(name_end(line))
}

/// The names of the commands that elicit exactly one reply line, in order.
pub open spec fn response_names() -> Seq<Seq<u8>> {
    seq![
        "player.getPos".spec_bytes(),
        "world.getBlockWithData".spec_bytes(),
        "world.getHeight".spec_bytes(),
        "world.getBlocksWithData".spec_bytes(),
        "world.getHeights".spec_bytes(),
    ]
}

/// Whether a command of this name is answered by the upstream server.
pub open spec fn is_response_name(name: Seq<u8>) -> bool {
    response_names().contains(name)
}

/// Whether the upstream server answers the command line `line`.
pub open spec fn line_expects_response(line: Seq<u8>) -> bool {
    is_response_name(name_of(line))
}

proof fn lemma_name_end_bounds(line: Seq<u8>)
    ensures
        0 <= name_end(line) <= line.len(),
        forall|i: int| 0 <= i < name_end(line) ==> line[i] != OPEN_PAREN,
        name_end(line) < line.len() ==> line[name_end(line)] == OPEN_PAREN,
    decreases line.len(),
{
    if line.len() > 0 && line[0] != OPEN_PAREN {
        lemma_name_end_bounds(line.drop_first());
        assert forall|i: int| 0 <= i < name_end(line) implies line[i] != OPEN_PAREN by {
            if i > 0 {
                assert(line[i] == line.drop_first()[i - 1]);
            }
        }
    }
}

/// `name_end` is the first `(`: a prefix with no `(` followed by one, or the whole line.
proof fn lemma_name_end_unique(line: Seq<u8>, k: int)
    requires
        0 <= k <= line.len(),
        forall|i: int| 0 <= i < k ==> line[i] != OPEN_PAREN,
        k < line.len() ==> line[k] == OPEN_PAREN,
    ensures
        name_end(line) == k,
    decreases line.len(),
{
    if line.len() > 0 && line[0] != OPEN_PAREN {
        let rest = line.drop_first();
        assert forall|i: int| 0 <= i < k - 1 implies rest[i] != OPEN_PAREN by {
            assert(rest[i] == line[i + 1]);
        }
        if k - 1 < rest.len() {
            assert(rest[k - 1] == line[k]);
        }
        lemma_name_end_unique(rest, k - 1);
    }
}

/// Taking the name of a name changes nothing: extraction is idempotent.
pub proof fn lemma_name_of_idempotent(line: Seq<u8>)
    ensures
        name_of(name_of(line)) == name_of(line),
{
    lemma_name_end_bounds(line);
    let name = name_of(line);
    lemma_name_end_unique(name, name.len() as int);
    assert(name.take(name.len() as int) =~= name);
}

/// The position at which the name of `line` ends.
fn find_name_end(line: &[u8]) -> (k: usize)
    ensures
        k as int == name_end(line@),
{
    let mut k: usize = 0;
    while k < line.len() && line[k] != OPEN_PAREN
        invariant
            0 <= k <= line@.len(),
            forall|i: int| 0 <= i < k ==> line@[i] != OPEN_PAREN,
        decreases line@.len() - k,
    {
        k = k + 1;
    }
    proof {
        lemma_name_end_unique(line@, k as int);
    }
    k
}

/// The command name of `line`: the bytes before its first `(`, or all of it.
pub fn extract_name(line: &[u8]) -> (name: &[u8])
    ensures
        name@ == name_of(line@),
{
    let k = find_name_end(line);
    proof {
        lemma_name_end_bounds(line@);
    }
    let name = vstd::slice::slice_subrange(line, 0, k);
    assert(name@ =~= name_of(line@));
    name
}

/// Whether two byte strings are equal.
fn same_bytes(a: &[u8], b: &[u8]) -> (r: bool)
    ensures
        r == (a@ == b@),
{
    if a.len() != b.len() {
        return false;
    }
    let mut i: usize = 0;
    while i < a.len()
        invariant
            a@.len() == b@.len(),
            0 <= i <= a@.len(),
            forall|j: int| 0 <= j < i ==> a@[j] == b@[j],
        decreases a@.len() - i,
    {
        if a[i] != b[i] {
            return false;
        }
        i = i + 1;
    }
    assert(a@ =~= b@);
    true
}

/// Whether `name` is the name of a command that the upstream server answers.
pub fn is_response_command(name: &[u8]) -> (r: bool)
    ensures
        r == is_response_name(name@),
{
    let ghost names = response_names();
    if same_bytes(name, "player.getPos".as_bytes()) {
        assert(names[0] == name@);
        return true;
    }
    if same_bytes(name, "world.getBlockWithData".as_bytes()) {
        assert(names[1] == name@);
        return true;
    }
    if same_bytes(name, "world.getHeight".as_bytes()) {
        assert(names[2] == name@);
        return true;
    }
    if same_bytes(name, "world.getBlocksWithData".as_bytes()) {
        assert(names[3] == name@);
        return true;
    }
    if same_bytes(name, "world.getHeights".as_bytes()) {
        assert(names[4] == name@);
        return true;
    }
    assert forall|i: int| 0 <= i < names.len() implies names[i] != name@ by {}
    false
}

/// Whether the upstream server answers the command line `line`.
pub fn expects_response(line: &[u8]) -> (r: bool)
    ensures
        r == line_expects_response(line@),
{
    is_response_command(extract_name(line))
}

} // verus!
