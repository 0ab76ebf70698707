//! Turning an accepted candidate into a skill manifest, with a record of the
//! directory names already taken in this run so that no two candidates share one.
use vstd::prelude::*;

use crate::scout::ScoutResult;
use crate::text::{append, chars_of, same_chars, string_of};

verus! {

/// A field that a manifest needs and the candidate lacks.
#[derive(Clone, Copy, Debug, PartialEq, Eq, Structural)]
pub enum ManifestField {
    Name,
    Description,
}

/// Why a candidate could not be integrated.
#[derive(Debug)]
pub enum IntegrationError {
    /// A field required by the manifest is empty.
    MissingField(ManifestField),
    /// An earlier candidate of this run already took the directory name.
    NameCollision(String),
    /// The target directory already exists on disk.
    AlreadyExists(String),
    /// Writing the files failed.
    Write(String),
}

/// What is written for one integrated skill: a directory named after the
/// skill, holding the manifest document.
pub struct Manifest {
    pub dir_name: String,
    pub content: String,
}

/// A character that may stand in a directory name as it is; others become `-`.
pub open spec fn is_safe_char(c: char) -> bool {
    ('a' <= c && c <= 'z') || ('0' <= c && c <= '9') || c == '-' || c == '_'
}

/// The file-system-safe form of one character: ASCII letters lower-cased,
/// digits, `-` and `_` kept, anything else `-`.
pub open spec fn safe_char(c: char) -> char {
    if 'A' <= c && c <= 'Z' {
        ((c as u8) + 32) as char
    } else if is_safe_char(c) {
        c
    } else {
        '-'
    }
}

/// The directory name derived from a skill name.
pub open spec fn safe_name(name: Seq<char>) -> Seq<char> {
    name.map_values(|c: char| safe_char(c))
}

/// The escaped form of one character inside a quoted manifest value.
pub open spec fn escape_char(c: char) -> Seq<char> {
    if c == '"' {
        seq!['\\', '"']
    } else if c == '\\' {
        seq!['\\', '\\']
    } else if c == '\n' {
        seq!['\\', 'n']
    } else {
        seq![c]
    }
}

/// `s` with each character escaped.
pub open spec fn escape(s: Seq<char>) -> Seq<char>
    decreases s.len(),
{
    if s.len() == 0 {
        s
    } else {
        escape(s.drop_last()) + escape_char(s.last())
    }
}

/// `key = "value"` and a line break, the value escaped.
pub open spec fn manifest_line(key: Seq<char>, value: Seq<char>) -> Seq<char> {
    key + " = \""@ + escape(value) + "\"\n"@
}

/// The manifest document of a candidate.
pub open spec fn manifest_text(c: ScoutResult) -> Seq<char> {
    "[skill]\n"@ + manifest_line("name"@, c.name@) + manifest_line("description"@, c.description@)
        + manifest_line("source"@, c.url@)
}

fn to_safe_char(c: char) -> (r: char)
    ensures
        r == safe_char(c),
{
    if 'A' <= c && c <= 'Z' {
        ((c as u8) + 32) as char
    } else if ('a' <= c && c <= 'z') || ('0' <= c && c <= '9') || c == '-' || c == '_' {
        c
    } else {
        '-'
    }
}

/// The directory name for a skill called `name` (see `safe_name`).
pub fn sanitize_name(name: &str) -> (r: Vec<char>)
    ensures
        r@ == safe_name(name@),
{
    let s = chars_of(name);
    let mut r: Vec<char> = Vec::new();
    let mut i: usize = 0;
    while i < s.len()
        invariant
            i <= s.len(),
            r@ =~= safe_name(s@.take(i as int)),
        decreases s.len() - i,
    {
        r.push(to_safe_char(s[i]));
        i = i + 1;
        assert(r@ =~= safe_name(s@.take(i as int)));
    }
    assert(s@.take(s.len() as int) =~= s@);
    r
}

/// Appends `value` to `out`, escaped.
fn push_escaped(out: &mut Vec<char>, value: &str)
    ensures
        final(out)@ == old(out)@ + escape(value@),
{
    let s = chars_of(value);
    let mut i: usize = 0;
    while i < s.len()
        invariant
            i <= s.len(),
            out@ == old(out)@ + escape(s@.take(i as int)),
        decreases s.len() - i,
    {
        let c = s[i];
        let ghost before = out@;
        if c == '"' {
            out.push('\\');
            out.push('"');
        } else if c == '\\' {
            out.push('\\');
            out.push('\\');
        } else if c == '\n' {
            out.push('\\');
            out.push('n');
        } else {
            out.push(c);
        }
        assert(out@ =~= before + escape_char(c));
        assert(s@.take(i + 1).drop_last() =~= s@.take(i as int));
        i = i + 1;
        assert(out@ =~= old(out)@ + escape(s@.take(i as int)));
    }
    assert(s@.take(s.len() as int) =~= s@);
}

/// Appends `key = "value"` and a line break to `out`.
fn push_line(out: &mut Vec<char>, key: &str, value: &str)
    ensures
        final(out)@ == old(out)@ + manifest_line(key@, value@),
{
    append(out, &chars_of(key));
    append(out, &chars_of(" = \""));
    push_escaped(out, value);
    append(out, &chars_of("\"\n"));
    assert(out@ =~= old(out)@ + manifest_line(key@, value@));
}

/// The manifest document of `c` (see `manifest_text`).
pub fn render_manifest(c: &ScoutResult) -> (r: String)
    ensures
        r@ == manifest_text(*c),
{
    let mut out = chars_of("[skill]\n");
    push_line(&mut out, "name", c.name.as_str());
    push_line(&mut out, "description", c.description.as_str());
    push_line(&mut out, "source", c.url.as_str());
    assert(out@ =~= manifest_text(*c));
    string_of(&out)
}

/// What integrating `c` returns when the directory names in `taken` are in use:
/// an error for a missing name, then for a missing description, then for a
/// taken directory name; otherwise the manifest, under the derived name.
pub open spec fn integration_fits(
    c: ScoutResult,
    taken: Seq<Seq<char>>,
    r: Result<Manifest, IntegrationError>,
) -> bool {
    if c.name@.len() == 0 {
        r == Err::<Manifest, IntegrationError>(IntegrationError::MissingField(ManifestField::Name))
    } else if c.description@.len() == 0 {
        r == Err::<Manifest, IntegrationError>(
            IntegrationError::MissingField(ManifestField::Description),
        )
    } else if taken.contains(safe_name(c.name@)) {
        r matches Err(IntegrationError::NameCollision(n)) && n@ == safe_name(c.name@)
    } else {
        r matches Ok(m) && m.dir_name@ == safe_name(c.name@) && m.content@ == manifest_text(c)
    }
}

/// Materializes accepted candidates as manifests, one directory per skill,
/// and refuses a second candidate whose directory name is already taken.
pub struct Integrator {
    output_dir: String,
    reserved: Vec<Vec<char>>,
}

/// Whether one of `names` equals `n`.
fn contains_name(names: &Vec<Vec<char>>, n: &Vec<char>) -> (r: bool)
    ensures
        r == exists|j: int| 0 <= j < names.len() && (#[trigger] names@[j])@ == n@,
{
    let mut i: usize = 0;
    while i < names.len()
        invariant
            i <= names.len(),
            forall|j: int| 0 <= j < i ==> (#[trigger] names@[j])@ != n@,
        decreases names.len() - i,
    {
        if same_chars(&names[i], n) {
            assert(names@[i as int]@ == n@);
            return true;
        }
        i = i + 1;
    }
    false
}

impl Integrator {
    /// The directory under which skills are written.
    pub closed spec fn dir(&self) -> Seq<char> {
        self.output_dir@
    }

    pub fn output_dir(&self) -> (r: &str)
        ensures
            r@ == self.dir(),
    {
        self.output_dir.as_str()
    }

    /// The directory names taken so far in this run, in the order they were taken.
    pub closed spec fn taken(&self) -> Seq<Seq<char>> {
        self.reserved@.map_values(|n: Vec<char>| n@)
    }

    pub fn new(output_dir: String) -> (r: Integrator)
        ensures
            r.dir() == output_dir@,
            r.taken() == Seq::<Seq<char>>::empty(),
    {
        let r = Integrator { output_dir, reserved: Vec::new() };
        assert(r.taken() =~= Seq::<Seq<char>>::empty());
        r
    }

    /// Checks that `c` can be integrated, takes its directory name and
    /// returns its manifest. A candidate without a name or description, or
    /// whose directory name an earlier one took, is refused and nothing is taken.
    pub fn integrate(&mut self, c: &ScoutResult) -> (r: Result<Manifest, IntegrationError>)
        ensures
            final(self).dir() == old(self).dir(),
            integration_fits(*c, old(self).taken(), r),
            match r {
                Ok(m) => final(self).taken() == old(self).taken().push(safe_name(c.name@)),
                Err(_) => final(self).taken() == old(self).taken(),
            },
    {
        if c.name.as_str().is_empty() {
            return Err(IntegrationError::MissingField(ManifestField::Name));
        }
        if c.description.as_str().is_empty() {
            return Err(IntegrationError::MissingField(ManifestField::Description));
        }
        let safe = sanitize_name(c.name.as_str());
        let ghost taken = self.taken();
        if contains_name(&self.reserved, &safe) {
            proof {
                let j = choose|j: int| 0 <= j < self.reserved.len() && (#[trigger] self.reserved@[j])@ == safe@;
                assert(taken[j] == safe@);
            }
            return Err(IntegrationError::NameCollision(string_of(&safe)));
        }
        proof {
            assert(!taken.contains(safe@)) by {
                if taken.contains(safe@) {
                    let j = choose|j: int| 0 <= j < taken.len() && taken[j] == safe@;
                    assert(self.reserved@[j]@ == safe@);
                }
            }
        }
        let dir_name = string_of(&safe);
        let content = render_manifest(c);
        self.reserved.push(safe);
        assert(self.taken() =~= taken.push(safe_name(c.name@)));
        Ok(Manifest { dir_name, content })
    }
}

} // verus!
