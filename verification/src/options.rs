//! What a batch run was asked to do.
//!
//! The unverified shell parses the command line and hands the result in
//! as plain values; the output-placement decision itself lives here.

use vstd::prelude::*;
use vstd::string::*;

use crate::pathname;
use crate::temp;

verus! {

/// Where output files go: an explicit file, an explicit directory, or —
/// with neither — a temp name beside the input, later swapped into place.
#[derive(Debug)]
pub struct OutputOptions {
    pub file: Option<String>,
    pub dir: Option<String>,
}

/// The options of one batch run.
#[derive(Debug)]
pub struct Options {
    pub inputs: Vec<String>,
    pub output: OutputOptions,
    pub no_grow: bool,
    pub keep_going: bool,
    pub stats: bool,
}

impl OutputOptions {
    /// With no explicit output, the converted file replaces the input.
    pub open spec fn spec_should_replace(self) -> bool {
        self.file is None && self.dir is None
    }

    pub fn should_replace(&self) -> (r: bool)
        ensures
            r == self.spec_should_replace(),
    {
        self.file.is_none() && self.dir.is_none()
    }

    /// The resolved output path for one input: the explicit file wins,
    /// then a name inside the explicit directory carrying the tool's
    /// extension, else a fresh temp name beside the input. `ext` is the
    /// extension without its dot; empty keeps none.
    pub fn get(&self, input: &str, ext: &str) -> (r: String)
        ensures
            match self.file {
                Some(f) => r@ == f@,
                None => match self.dir {
                    Some(d) => r@ == pathname::spec_join(
                        d@,
                        pathname::spec_with_extension(pathname::spec_file_name(input@), ext@),
                    ),
                    None => temp::is_candidate(
                        r@,
                        input@,
                        if ext@.len() == 0 {
                            Seq::<char>::empty()
                        } else {
                            seq!['.'] + ext@
                        },
                    ),
                },
            },
    {
        if let Some(f) = &self.file {
            return f.clone();
        }
        if let Some(d) = &self.dir {
            let name = pathname::file_name(input);
            let named = pathname::with_extension(name, ext);
            return pathname::join(d.as_str(), named.as_str());
        }
        if ext.unicode_len() == 0 {
            temp::file(input, None)
        } else {
            let mut dotted = ".".to_owned();
            dotted.append(ext);
            proof {
                reveal_strlit(".");
                assert("."@ =~= seq!['.']);
            }
            temp::file(input, Some(dotted.as_str()))
        }
    }
}

} // verus!
