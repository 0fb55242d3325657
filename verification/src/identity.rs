//! The identity a node shows to its peers: a generated name and a client
//! identifier.

use vstd::prelude::*;

verus! {

/// A node name has fewer characters than this.
pub const NODE_NAME_MAX_LENGTH: usize = 64;

/// How many candidates are drawn before name generation gives up.
pub const NODE_NAME_MAX_ATTEMPTS: usize = 1000;

/// Why no node name was produced.
#[derive(Clone, Copy, Debug, PartialEq, Eq, Structural)]
pub enum NodeNameError {
    /// Every candidate drawn was too long.
    AttemptsExhausted,
}

/// What follows from one candidate that the generator handed out.
#[derive(Debug)]
pub enum NameSearch {
    /// The candidate is short enough and becomes the node name.
    Found(String),
    /// The candidate is too long and another one is drawn.
    Retry,
    /// The search ends without a name.
    Failed(NodeNameError),
}

/// Whether `name` is short enough for a node name.
pub open spec fn is_valid_node_name(name: Seq<char>) -> bool {
    name.len() < NODE_NAME_MAX_LENGTH
}

/// What follows from the candidate drawn in attempt number `attempt`,
/// counted from zero: a valid candidate is the name; one that is too long
/// is replaced by another, unless it was the last that may be drawn.
pub open spec fn name_search(attempt: usize, candidate: String) -> NameSearch {
    if is_valid_node_name(candidate@) {
        NameSearch::Found(candidate)
    } else if attempt + 1 < NODE_NAME_MAX_ATTEMPTS {
        NameSearch::Retry
    } else {
        NameSearch::Failed(NodeNameError::AttemptsExhausted)
    }
}

/// The form of a generated name.
#[derive(Clone, Copy, Debug, PartialEq, Eq, Structural)]
pub enum Naming {
    /// An adjective and a noun.
    Plain,
    /// An adjective, a noun and a four-digit number.
    Numbered,
}

/// Whether `c` is one of the ten decimal digits.
pub open spec fn is_decimal_digit(c: char) -> bool {
    '0' <= c <= '9'
}

/// Whether `name` ends in a hyphen and a number of four decimal digits.
pub open spec fn ends_in_number(name: Seq<char>) -> bool {
    &&& name.len() >= 5
    &&& name[name.len() - 5] == '-'
    &&& forall|i: int| name.len() - 4 <= i < name.len() ==> is_decimal_digit(#[trigger] name[i])
}

/// Whether `candidate` is what the generator may hand out for `naming`:
/// there is a name, and a numbered name ends in its number.
pub open spec fn is_candidate_of(naming: Naming, candidate: Option<String>) -> bool {
    candidate matches Some(name) && (naming == Naming::Numbered ==> ends_in_number(name@))
}

/// Draws one name from `names::Generator::with_naming`, whose `next` picks
/// an adjective and a noun from its built-in word lists and joins them
/// with a hyphen; where the naming is numbered it adds a hyphen and a
/// number between 1 and 9999, written with four digits. Every return of
/// `next` is `Some`. This much is claimed and no more: the words and the
/// number are picked at random, and nothing is said of how long the words
/// are. The thread's random generator is seeded from the operating system,
/// and the call aborts the thread on a machine that has no source of
/// randomness to offer.
#[verifier::external_body]
fn next_name(naming: Naming) -> (candidate: Option<String>)
    ensures
        is_candidate_of(naming, candidate),
{
    let naming = match naming {
        Naming::Plain => names::Name::Plain,
        Naming::Numbered => names::Name::Numbered,
    };
    names::Generator::with_naming(naming).next()
}

/// Judges the candidate drawn in attempt number `attempt`, counted from
/// zero, by its number of characters.
pub fn judge_candidate(attempt: usize, candidate: String) -> (verdict: NameSearch)
    ensures
        verdict == name_search(attempt, candidate),
{
    if candidate.as_str().unicode_len() < NODE_NAME_MAX_LENGTH {
        NameSearch::Found(candidate)
    } else if attempt < NODE_NAME_MAX_ATTEMPTS - 1 {
        NameSearch::Retry
    } else {
        NameSearch::Failed(NodeNameError::AttemptsExhausted)
    }
}

/// Generates a random name for the node, of the numbered form. Candidates
/// are drawn until one has fewer than [`NODE_NAME_MAX_LENGTH`] characters,
/// at most [`NODE_NAME_MAX_ATTEMPTS`] times. Which candidates are drawn is
/// left to chance, so nothing is promised of whether one of them is short
/// enough.
pub fn generate_node_name() -> (generated: Result<String, NodeNameError>)
    ensures
        generated matches Ok(name) ==> is_valid_node_name(name@) && ends_in_number(name@),
{
    let mut attempt: usize = 0;
    loop
        invariant
            attempt < NODE_NAME_MAX_ATTEMPTS,
        decreases NODE_NAME_MAX_ATTEMPTS - attempt,
    {
        let candidate = next_name(Naming::Numbered).unwrap();
        match judge_candidate(attempt, candidate) {
            NameSearch::Found(name) => {
                return Ok(name);
            },
            NameSearch::Failed(error) => {
                return Err(error);
            },
            NameSearch::Retry => {
                attempt += 1;
            },
        }
    }
}

/// The separator between the implementation's name and its version in a
/// client identifier.
pub const CLIENT_ID_SEPARATOR: &'static str = "/v";

/// The client identifier for an implementation name and version.
pub open spec fn client_id_of(impl_name: Seq<char>, impl_version: Seq<char>) -> Seq<char> {
    impl_name + CLIENT_ID_SEPARATOR@ + impl_version
}

/// The client identifier: the implementation's name, `/v`, and its version.
pub fn client_id(impl_name: &str, impl_version: &str) -> (id: String)
    ensures
        id@ == client_id_of(impl_name@, impl_version@),
{
    let mut id = impl_name.to_owned();
    id.append(CLIENT_ID_SEPARATOR);
    id.append(impl_version);
    id
}

/// A client identifier is the implementation's name, the two characters
/// `/` and `v`, and the version, with nothing before, between or after.
pub proof fn lemma_client_id_shape(impl_name: Seq<char>, impl_version: Seq<char>)
    ensures
        client_id_of(impl_name, impl_version) == impl_name + seq!['/', 'v'] + impl_version,
        client_id_of(impl_name, impl_version).len() == impl_name.len() + 2 + impl_version.len(),
{
    reveal_strlit("/v");
    assert(CLIENT_ID_SEPARATOR@ =~= seq!['/', 'v']);
}

} // verus!
