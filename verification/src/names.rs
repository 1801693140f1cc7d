//! Context-name validation.
//!
//! A context name becomes a single directory segment under the store root,
//! so the validator blocks anything that could traverse outside the store
//! or collide with the store's own dot-prefixed internal files.

use vstd::prelude::*;

verus! {

use crate::errors::CtxError;
use crate::errors::NameProblem;

/// True when `s` holds the character `c`.
pub open spec fn seq_has_char(s: Seq<char>, c: char) -> bool {
    exists|i: int| 0 <= i < s.len() && s[i] == c
}

/// True when `s` holds an ASCII control character (code point below 32).
pub open spec fn has_control_char(s: Seq<char>) -> bool {
    exists|i: int| 0 <= i < s.len() && (s[i] as u32) < 32
}

/// The first rule a candidate name breaks, if any, in the order the rules
/// are checked: emptiness, the two reserved names, a leading dot, path
/// separators, control characters.
pub open spec fn name_problem(s: Seq<char>) -> Option<NameProblem> {
    if s.len() == 0 {
        Some(NameProblem::Empty)
    } else if s == seq!['.'] || s == seq!['.', '.'] {
        Some(NameProblem::Reserved)
    } else if s[0] == '.' {
        Some(NameProblem::LeadingDot)
    } else if seq_has_char(s, '/') || seq_has_char(s, '\\') {
        Some(NameProblem::PathSeparator)
    } else if has_control_char(s) {
        Some(NameProblem::ControlCharacter)
    } else {
        None
    }
}

/// A name is valid when it breaks none of the rules.
pub open spec fn valid_name(s: Seq<char>) -> bool {
    name_problem(s) is None
}

/// Checks a context name against every rule, reporting the first rule broken.
pub fn validate_context_name(name: &str) -> (r: Result<(), CtxError>)
    ensures
        match name_problem(name@) {
            None => r is Ok,
            Some(p) => r == Err::<(), CtxError>(CtxError::InvalidName { problem: p }),
        },
        r is Ok <==> valid_name(name@),
{
    let n = name.unicode_len();
    if n == 0 {
        return Err(CtxError::InvalidName { problem: NameProblem::Empty });
    }
    if n == 1 && name.get_char(0) == '.' {
        proof {
            assert(name@ =~= seq!['.']);
        }
        return Err(CtxError::InvalidName { problem: NameProblem::Reserved });
    }
    if n == 2 && name.get_char(0) == '.' && name.get_char(1) == '.' {
        proof {
            assert(name@ =~= seq!['.', '.']);
        }
        return Err(CtxError::InvalidName { problem: NameProblem::Reserved });
    }
    proof {
        assert(name@ != seq!['.'] && name@ != seq!['.', '.']) by {
            if name@ == seq!['.'] {
                assert(name@.len() == 1);
            }
            if name@ == seq!['.', '.'] {
                assert(name@.len() == 2);
                assert(name@[0] == '.' && name@[1] == '.');
            }
        }
    }
    if name.get_char(0) == '.' {
        return Err(CtxError::InvalidName { problem: NameProblem::LeadingDot });
    }
    let mut i: usize = 0;
    while i < n
        invariant
            n == name@.len(),
            i <= n,
            forall|j: int| 0 <= j < i ==> name@[j] != '/' && name@[j] != '\\',
            name@.len() > 0,
            name@ != seq!['.'] && name@ != seq!['.', '.'],
            name@[0] != '.',
        decreases n - i,
    {
        let c = name.get_char(i);
        if c == '/' || c == '\\' {
            return Err(CtxError::InvalidName { problem: NameProblem::PathSeparator });
        }
        i += 1;
    }
    assert(!seq_has_char(name@, '/') && !seq_has_char(name@, '\\'));
    let mut i: usize = 0;
    while i < n
        invariant
            n == name@.len(),
            i <= n,
            forall|j: int| 0 <= j < i ==> (name@[j] as u32) >= 32,
            name@.len() > 0,
            name@ != seq!['.'] && name@ != seq!['.', '.'],
            name@[0] != '.',
            !seq_has_char(name@, '/') && !seq_has_char(name@, '\\'),
        decreases n - i,
    {
        let c = name.get_char(i);
        if (c as u32) < 32 {
            return Err(CtxError::InvalidName { problem: NameProblem::ControlCharacter });
        }
        i += 1;
    }
    assert(!has_control_char(name@));
    Ok(())
}

} // verus!
