//! Core logic of an environment lifecycle orchestrator: the one-time assembly
//! gate for derived configuration artifacts, generation tracking and garbage
//! collection over build-output symlinks, service-group lifecycle control by
//! pid file, shell environment capture, and the container build pipeline.

use vstd::prelude::*;

pub mod assembly;
pub mod attrs;
pub mod container;
pub mod environment;
pub mod errors;
pub mod gc;
pub mod hashing;
pub mod init;
pub mod numbers;
pub mod orchestrator;
pub mod overlay;
pub mod processes;
pub mod search;
pub mod shell;
pub mod tasks;
pub mod strutil;

verus! {

/// A sanitized container name keeps only alphanumeric characters, `-` and `_`.
pub fn sanitize_container_name(name: &str) -> (r: String)
    ensures
        r@ == name@.filter(|c: char| strutil::keeps_in_container_name(c)),
{
    let chars = strutil::chars_of(name);
    let mut out: Vec<char> = Vec::new();
    let mut i: usize = 0;
    proof {
        assert(chars@.subrange(0, 0) =~= Seq::<char>::empty());
        reveal(Seq::filter);
    }
    while i < chars.len()
        invariant
            i <= chars@.len(),
            chars@ == name@,
            out@ == chars@.subrange(0, i as int).filter(
                |c: char| strutil::keeps_in_container_name(c),
            ),
        decreases chars@.len() - i,
    {
        let c = chars[i];
        let kept = strutil::is_alphanumeric_char(c) || c == '-' || c == '_';
        if kept {
            out.push(c);
        }
        proof {
            assert(chars@.subrange(0, i + 1) =~= chars@.subrange(0, i as int).push(c));
            strutil::lemma_filter_push(
                chars@.subrange(0, i as int),
                |c: char| strutil::keeps_in_container_name(c),
                c,
            );
        }
        i = i + 1;
    }
    proof {
        assert(chars@.subrange(0, chars@.len() as int) =~= chars@);
    }
    strutil::string_of(&out)
}

} // verus!
