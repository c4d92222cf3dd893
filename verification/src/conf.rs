//! The host-side configuration block: the command line under watch, held as
//! the tokens it was split into.

use crate::text::{split_whitespace_tokens, whitespace_tokens};
use vstd::prelude::*;
use vstd::string::StringExecFns;

verus! {

/// The text a token sequence joins back to, separated by single spaces.
pub open spec fn joined(parts: Seq<Seq<char>>) -> Seq<char>
    decreases parts.len(),
{
    if parts.len() == 0 {
        Seq::empty()
    } else if parts.len() == 1 {
        parts[0]
    } else {
        joined(parts.drop_last()) + seq![' '] + parts.last()
    }
}

/// The watched command line, stored as its whitespace tokens.
#[derive(Debug, Clone)]
pub struct GConf {
    cmdline: Vec<String>,
}

impl View for GConf {
    type V = Seq<Seq<char>>;

    closed spec fn view(&self) -> Seq<Seq<char>> {
        self.cmdline.deep_view()
    }
}

impl GConf {
    /// An empty configuration: no command line yet.
    pub fn new() -> (r: GConf)
        ensures
            r@ == Seq::<Seq<char>>::empty(),
    {
        let conf = GConf { cmdline: Vec::new() };
        proof {
            assert(conf.cmdline.deep_view() =~= Seq::<Seq<char>>::empty());
        }
        conf
    }

    /// Replaces the stored command line with the tokens of the given one.
    pub fn set_cmdline(&mut self, cmdline: &str)
        ensures
            final(self)@ == whitespace_tokens(cmdline@),
    {
        self.cmdline = split_whitespace_tokens(cmdline);
    }

    /// Appends one argument to the stored command line.
    pub fn add_to_cmdline(&mut self, arg: &str)
        ensures
            final(self)@ == old(self)@.push(arg@),
    {
        let owned = arg.to_owned();
        self.cmdline.push(owned);
        proof {
            assert(self.cmdline.deep_view() =~= old(self)@.push(arg@));
        }
    }

    /// The stored command line joined back into one string, tokens separated
    /// by single spaces.
    pub fn get_cmdline(&self) -> (r: String)
        ensures
            r@ == joined(self@),
    {
        let mut out = String::new();
        let mut i: usize = 0;
        proof {
            assert(self@.subrange(0, 0) =~= Seq::<Seq<char>>::empty());
        }
        while i < self.cmdline.len()
            invariant
                i <= self.cmdline@.len(),
                self@.len() == self.cmdline@.len(),
                out@ == joined(self@.subrange(0, i as int)),
            decreases self.cmdline@.len() - i,
        {
            if i > 0 {
                out.append(" ");
                proof {
                    reveal_strlit(" ");
                    assert(" "@ =~= seq![' ']);
                }
            }
            let part = &self.cmdline[i];
            out.append(part.as_str());
            proof {
                let upto = self@.subrange(0, i + 1);
                assert(part@ == self@[i as int]);
                assert(upto.last() == self@[i as int]);
                if i > 0 {
                    assert(upto.drop_last() =~= self@.subrange(0, i as int));
                } else {
                    assert(upto.len() == 1);
                    assert(Seq::<char>::empty() + self@[0] =~= self@[0]);
                }
            }
            i += 1;
        }
        proof {
            assert(self@.subrange(0, self@.len() as int) =~= self@);
        }
        out
    }
}

} // verus!
