//! Tokens: at most one check of a source runs at a time.

use std::collections::HashSet;
use vstd::prelude::*;

verus! {

/// The sources that are being checked.
pub type Running = HashSet<i32>;

/// The right to check one source. There is only one of them for each source.
#[derive(Debug)]
pub struct Token {
    my_id: i32,
}

/// What becomes of taking the token of a source, and the sources that are being checked then.
pub open spec fn taken(running: Set<i32>, id: i32) -> (Result<i32, Seq<char>>, Set<i32>) {
    if running.contains(id) {
        (Err("Token already taken"@), running)
    } else {
        (Ok(id), running.insert(id))
    }
}

/// The sources that are being checked when the token of one of them was given back.
pub open spec fn given_back(running: Set<i32>, id: i32) -> Set<i32> {
    running.remove(id)
}

impl Token {
    /// The source that this token is for.
    pub closed spec fn of(self) -> i32 {
        self.my_id
    }

    /// Takes the token of a source, or fails where it is taken.
    pub fn new(running: &mut Running, my_id: i32) -> (r: Result<Token, String>)
        ensures
            taken(old(running)@, my_id) == (
                match r {
                    Ok(token) => Ok::<i32, Seq<char>>(token.of()),
                    Err(e) => Err(e@),
                },
                final(running)@,
            ),
    {
        if running.contains(&my_id) {
            Err("Token already taken".to_owned())
        } else {
            running.insert(my_id);
            Ok(Token { my_id })
        }
    }

    /// The source that this token is for.
    pub fn id(&self) -> (r: i32)
        ensures
            r == self.of(),
    {
        self.my_id
    }

    /// Gives the token back, so that the source can be checked again.
    pub fn release(self, running: &mut Running)
        ensures
            final(running)@ == given_back(old(running)@, self.of()),
    {
        running.remove(&self.my_id);
    }
}

/// There is one token for each source: it cannot be taken twice, it can be taken again once it was
/// given back, and neither touches the tokens of other sources.
pub proof fn one_token_each(running: Set<i32>, id: i32, other: i32)
    requires
        taken(running, id).0 is Ok,
        other != id,
    ensures
        taken(taken(running, id).1, id) == (
            Err::<i32, Seq<char>>("Token already taken"@),
            taken(running, id).1,
        ),
        given_back(taken(running, id).1, id) =~= running,
        taken(given_back(taken(running, id).1, id), id).0 is Ok,
        taken(taken(running, id).1, other).0 == taken(running, other).0,
        taken(given_back(running, id), other).0 == taken(running, other).0,
{
}

} // verus!
