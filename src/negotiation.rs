use vstd::prelude::*;

verus! {

/// The error raised when the two sides support no common task.
#[derive(Debug, PartialEq, Eq, Clone, Copy, Structural)]
pub enum NegotiationError {
    NoCommonTask,
}

/// Whether `name` is among the task names in `names`.
pub open spec fn supports(names: Seq<Vec<u8>>, name: Seq<u8>) -> bool {
    exists|j: int| 0 <= j < names.len() && #[trigger] names[j]@ == name
}

/// Whether two byte strings are equal.
pub fn same_bytes(a: &Vec<u8>, b: &Vec<u8>) -> (r: bool)
    ensures
        r == (a@ == b@),
{
    if a.len() != b.len() {
        return false;
    }
    let mut i: usize = 0;
    while i < a.len()
        invariant
            i <= a@.len(),
            a@.len() == b@.len(),
            forall|k: int| 0 <= k < i ==> a@[k] == b@[k],
        decreases a@.len() - i,
    {
        if a[i] != b[i] {
            return false;
        }
        i = i + 1;
    }
    proof {
        assert(a@ =~= b@);
    }
    true
}

/// The position in `names` of a task named `name`, if there is one.
pub fn find_task(names: &Vec<Vec<u8>>, name: &Vec<u8>) -> (r: Option<usize>)
    ensures
        r is Some <==> supports(names@, name@),
        r is Some ==> r->0 < names@.len() && names@[r->0 as int]@ == name@,
{
    let mut j: usize = 0;
    while j < names.len()
        invariant
            j <= names@.len(),
            forall|k: int| 0 <= k < j ==> names@[k]@ != name@,
        decreases names@.len() - j,
    {
        if same_bytes(&names[j], name) {
            return Some(j);
        }
        j = j + 1;
    }
    None
}

/// Selects the task to run: the first of the local side's tasks, in its
/// order of preference, that the remote side supports. Returns its position
/// in `local` and in `remote`, or `NoCommonTask` when the two share none.
pub fn negotiate(local: &Vec<Vec<u8>>, remote: &Vec<Vec<u8>>) -> (r: Result<
    (usize, usize),
    NegotiationError,
>)
    ensures
        r is Err <==> forall|i: int| 0 <= i < local@.len() ==> !supports(remote@, #[trigger] local@[i]@),
        r is Ok ==> {
            let (i, j) = r->Ok_0;
            &&& i < local@.len()
            &&& j < remote@.len()
            &&& remote@[j as int]@ == local@[i as int]@
            &&& forall|k: int| 0 <= k < i ==> !supports(remote@, #[trigger] local@[k]@)
        },
{
    let mut i: usize = 0;
    while i < local.len()
        invariant
            i <= local@.len(),
            forall|k: int| 0 <= k < i ==> !supports(remote@, #[trigger] local@[k]@),
        decreases local@.len() - i,
    {
        match find_task(remote, &local[i]) {
            Some(j) => {
                return Ok((i, j));
            },
            None => {},
        }
        i = i + 1;
    }
    Err(NegotiationError::NoCommonTask)
}

/// The selected task does not depend on the order in which the remote side
/// lists its tasks: two remote lists with the same tasks lead to the same
/// local choice.
pub proof fn lemma_choice_independent_of_remote_order(
    local: Seq<Vec<u8>>,
    remote1: Seq<Vec<u8>>,
    remote2: Seq<Vec<u8>>,
    i1: int,
    i2: int,
)
    requires
        forall|x: Seq<u8>| supports(remote1, x) <==> supports(remote2, x),
        0 <= i1 < local.len(),
        0 <= i2 < local.len(),
        supports(remote1, local[i1]@),
        forall|k: int| 0 <= k < i1 ==> !supports(remote1, #[trigger] local[k]@),
        supports(remote2, local[i2]@),
        forall|k: int| 0 <= k < i2 ==> !supports(remote2, #[trigger] local[k]@),
    ensures
        i1 == i2,
{
    if i1 < i2 {
        assert(!supports(remote2, local[i1]@));
    } else if i2 < i1 {
        assert(!supports(remote1, local[i2]@));
    }
}

} // verus!
