//! Finding and loading program binaries from a list of directories.

use vstd::prelude::*;

verus! {

/// The path of `name` inside `dir`, as `std::path::Path::join` builds it.
pub uninterp spec fn path_join(dir: Seq<char>, name: Seq<char>) -> Seq<char>;

/// Relies on `std::path::Path::join`, rendered back as a string: a function
/// of the two strings alone.
#[verifier::external_body]
fn join_path(dir: &str, name: &str) -> (r: String)
    ensures
        r@ == path_join(dir@, name@),
{
    std::path::Path::new(dir).join(name).to_string_lossy().into_owned()
}

/// The file name of a program's binary: the program name with `.so` appended.
pub open spec fn elf_file_name_spec(program_name: Seq<char>) -> Seq<char> {
    program_name + seq!['.', 's', 'o']
}

/// The file name of a program's binary.
pub fn elf_file_name(program_name: &str) -> (r: String)
    ensures
        r@ == elf_file_name_spec(program_name@),
{
    let name = String::from_str(program_name);
    proof {
        reveal_strlit(".so");
    }
    name.concat(".so")
}

/// The path of a program's binary inside `elf_dir`.
pub fn elf_path(elf_dir: &str, program_name: &str) -> (r: String)
    ensures
        r@ == path_join(elf_dir@, elf_file_name_spec(program_name@)),
{
    let file_name = elf_file_name(program_name);
    join_path(elf_dir, file_name.as_str())
}

/// A program binary that none of the directories holds.
#[derive(Debug)]
pub struct ElfNotFound {
    /// The file name that was looked for.
    pub file_name: String,
}

/// Whether some call of `read` on a path with the text `path` returned `out`.
pub open spec fn read_gave<F: Fn(&String) -> Option<Vec<u8>>>(
    read: F,
    path: Seq<char>,
    out: Option<Vec<u8>>,
) -> bool {
    exists|s: String| s@ == path && #[trigger] read.ensures((&s,), out)
}

/// Looks for files in a list of directories, in order.
pub struct FileReader {
    directories: Vec<String>,
}

impl View for FileReader {
    type V = Seq<Seq<char>>;

    closed spec fn view(&self) -> Seq<Seq<char>> {
        self.directories@.map_values(|d: String| d@)
    }
}

impl FileReader {
    /// A reader over the given directories, searched in the order given.
    pub fn new(directories: &[&str]) -> (r: FileReader)
        ensures
            r@ == directories@.map_values(|d: &str| d@),
    {
        let mut dirs: Vec<String> = Vec::new();
        let mut i: usize = 0;
        while i < directories.len()
            invariant
                0 <= i <= directories@.len(),
                dirs@.len() == i,
                forall|j: int| 0 <= j < i ==> (#[trigger] dirs@[j])@ == directories@[j]@,
            decreases directories@.len() - i,
        {
            dirs.push(String::from_str(directories[i]));
            i = i + 1;
        }
        let r = FileReader { directories: dirs };
        assert(r@ =~= directories@.map_values(|d: &str| d@));
        r
    }

    /// The path of `filename` inside the directory at `index`.
    pub open spec fn candidate(&self, index: int, filename: Seq<char>) -> Seq<char> {
        path_join(self@[index], filename)
    }

    /// Reads `filename` from the first directory that holds it, trying the
    /// directories in order; `read` returns a file's bytes, or `None` where
    /// there is no such file. Returns the path and the bytes read, or `None`
    /// when no directory holds the file.
    pub fn find_file<F: Fn(&String) -> Option<Vec<u8>>>(&self, filename: &str, read: &F) -> (r: Option<(String, Vec<u8>)>)
        requires
            forall|s: &String| read.requires((s,)),
        ensures
            r matches Some((p, bytes)) ==> exists|i: int|
                0 <= i < self@.len() && p@ == self.candidate(i, filename@) && read_gave(*read, p@, Some(bytes))
                    && forall|j: int| 0 <= j < i ==> read_gave(*read, self.candidate(j, filename@), None),
            r is None ==> forall|j: int|
                0 <= j < self@.len() ==> read_gave(*read, self.candidate(j, filename@), None),
    {
        let mut i: usize = 0;
        while i < self.directories.len()
            invariant
                0 <= i <= self@.len(),
                self@.len() == self.directories@.len(),
                forall|s: &String| read.requires((s,)),
                forall|j: int| 0 <= j < i ==> read_gave(*read, self.candidate(j, filename@), None),
            decreases self.directories@.len() - i,
        {
            let candidate = join_path(self.directories[i].as_str(), filename);
            assert(candidate@ == self.candidate(i as int, filename@));
            let out = read(&candidate);
            assert(read.ensures((&candidate,), out));
            match out {
                Some(bytes) => {
                    assert(read_gave(*read, candidate@, Some(bytes)));
                    return Some((candidate, bytes));
                },
                None => {
                    assert(read_gave(*read, candidate@, None));
                },
            }
            i = i + 1;
        }
        None
    }

    /// Loads the binary of the program named `program_name` (the file
    /// `<program_name>.so`) from the first directory that holds it, or names
    /// the file that none holds.
    pub fn load_program_elf<F: Fn(&String) -> Option<Vec<u8>>>(&self, program_name: &str, read: &F) -> (r: Result<Vec<u8>, ElfNotFound>)
        requires
            forall|s: &String| read.requires((s,)),
        ensures
            r matches Ok(bytes) ==> exists|i: int|
                0 <= i < self@.len() && read_gave(
                    *read,
                    self.candidate(i, elf_file_name_spec(program_name@)),
                    Some(bytes),
                ) && forall|j: int|
                    0 <= j < i ==> read_gave(*read, self.candidate(j, elf_file_name_spec(program_name@)), None),
            r matches Err(e) ==> e.file_name@ == elf_file_name_spec(program_name@) && forall|j: int|
                0 <= j < self@.len() ==> read_gave(*read, self.candidate(j, elf_file_name_spec(program_name@)), None),
    {
        let file_name = elf_file_name(program_name);
        match self.find_file(file_name.as_str(), read) {
            Some((_path, bytes)) => Ok(bytes),
            None => Err(ElfNotFound { file_name }),
        }
    }
}

} // verus!
