//! The package's name, read from its manifest for the setup phase.
use vstd::prelude::*;

use crate::text::{
    chars_of, char_views, is_prefix, lines_of, slice, split_lines, starts_with, string_of, trim,
    trim_of,
};

verus! {

broadcast use vstd::string::group_string_axioms;

/// Why the manifest names no package.
#[derive(Clone, Copy, PartialEq, Eq, Structural, Debug)]
pub enum DescriptionError {
    /// No line starts with `Package:`.
    MissingPackageField,
    /// The first such line gives an empty name.
    EmptyPackageField,
}

/// The name on the first line that starts with `Package:`, trimmed.
pub open spec fn package_field(lines: Seq<Seq<char>>) -> Result<Seq<char>, DescriptionError>
    decreases lines.len(),
{
    if lines.len() == 0 {
        Err(DescriptionError::MissingPackageField)
    } else if is_prefix("Package:"@, lines[0]) {
        let name = trim(lines[0].subrange(8, lines[0].len() as int));
        if name.len() == 0 {
            Err(DescriptionError::EmptyPackageField)
        } else {
            Ok(name)
        }
    } else {
        package_field(lines.drop_first())
    }
}

/// Reads the package name from the contents of its `DESCRIPTION` file.
pub fn package_name_from_description(contents: &str) -> (r: Result<String, DescriptionError>)
    ensures
        (match r {
            Ok(s) => Ok(s@),
            Err(e) => Err(e),
        }) == package_field(split_lines(contents@)),
{
    let lines = lines_of(&chars_of(contents));
    let ghost ls = split_lines(contents@);
    let prefix = chars_of("Package:");
    proof {
        reveal_strlit("Package:");
    }
    let mut i: usize = 0;
    assert(ls.subrange(0, ls.len() as int) =~= ls);
    while i < lines.len()
        invariant
            i <= lines.len(),
            char_views(lines@) == ls,
            ls == split_lines(contents@),
            prefix@ == "Package:"@,
            package_field(ls) == package_field(ls.subrange(i as int, ls.len() as int)),
        decreases lines.len() - i,
    {
        let line = &lines[i];
        let ghost rest = ls.subrange(i as int, ls.len() as int);
        assert(rest[0] == line@);
        if starts_with(line, &prefix) {
            proof {
                reveal_strlit("Package:");
            }
            assert(is_prefix("Package:"@, rest[0]));
            let name = trim_of(&slice(line, 8, line.len()));
            assert(name@ == trim(rest[0].subrange(8, rest[0].len() as int)));
            if name.len() == 0 {
                return Err(DescriptionError::EmptyPackageField);
            }
            return Ok(string_of(&name));
        }
        assert(rest.drop_first() =~= ls.subrange(i + 1, ls.len() as int));
        i += 1;
    }
    Err(DescriptionError::MissingPackageField)
}

} // verus!
