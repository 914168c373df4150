use vstd::prelude::*;
use vstd::string::StringExecFns;

use crate::scope::Scope;

verus! {

/// Errors of generating one file.
pub enum FileCodegenError {
    /// The destination path already exists; its text is carried along.
    FileAlreadyExists(String),
    /// The underlying write failed; the failure's text is carried along.
    FileGenerationFailed(String),
}

/// Errors of generating a library of files.
pub enum LibraryCodegenError {
    /// The file's path is already taken; the path is carried along.
    FileAlreadyExists(String),
    /// Generating one file failed.
    FileGenerationFailed(FileCodegenError),
}

/// One file to generate: a relative path and the scope to render into it.
pub struct File {
    /// The file's relative path.
    pub path: String,
    /// The file's contents.
    pub scope: Scope,
}

/// A library: a name, a root path, the `lib.rs` file, and further files
/// under pairwise distinct paths.
pub struct Library {
    /// The library's name.
    pub name: String,
    /// The library's root path.
    pub path: String,
    /// The `lib.rs` file.
    pub lib: File,
    /// The other files, with pairwise distinct paths, none of them
    /// `lib.rs`.
    pub files: Vec<File>,
}

/// Whether some stored file uses the given path.
pub open spec fn has_file_path(files: Seq<File>, path: Seq<char>) -> bool {
    exists|i: int| 0 <= i < files.len() && (#[trigger] files[i]).path@ == path
}

/// The path-uniqueness invariant of a library's file set.
pub open spec fn files_unique(files: Seq<File>) -> bool {
    forall|i: int, j: int|
        0 <= i < j < files.len() ==> (#[trigger] files[i]).path@ != (#[trigger] files[j]).path@
}

impl File {
    /// Creates a file with the given path and an empty scope.
    pub fn new(path: &str) -> (r: File)
        ensures
            r.path@ == path@,
            r.scope.doc is None,
            crate::imports_table::table_view(&r.scope.imports).len() == 0,
            r.scope.items@.len() == 0,
    {
        File { path: path.to_owned(), scope: Scope::new() }
    }

    /// Gets the file path.
    pub fn path(&self) -> (r: &str)
        ensures
            r@ == self.path@,
    {
        self.path.as_str()
    }

    /// Sets the file path.
    pub fn set_path(&mut self, path: &str) -> (r: &mut File)
        ensures
            r.path@ == path@,
            r.scope == old(self).scope,
            *final(self) == *final(r),
    {
        self.path = path.to_owned();
        self
    }

    /// Gets the file path mutably.
    pub fn path_mut(&mut self) -> (r: &mut String)
        ensures
            *r == old(self).path,
            final(self).path == *final(r),
            final(self).scope == old(self).scope,
    {
        &mut self.path
    }

    /// Gets the file scope.
    pub fn scope(&self) -> (r: &Scope)
        ensures
            *r == self.scope,
    {
        &self.scope
    }

    /// Sets the file scope.
    pub fn set_scope(&mut self, scope: Scope) -> (r: &mut File)
        ensures
            r.scope == scope,
            r.path == old(self).path,
            *final(self) == *final(r),
    {
        self.scope = scope;
        self
    }

    /// Sets the file scope.
    pub fn with_scope(self, scope: Scope) -> (r: File)
        ensures
            r.scope == scope,
            r.path == self.path,
    {
        let mut s = self;
        s.scope = scope;
        s
    }

    /// Gets the file scope mutably.
    pub fn scope_mut(&mut self) -> (r: &mut Scope)
        ensures
            *r == old(self).scope,
            final(self).scope == *final(r),
            final(self).path == old(self).path,
    {
        &mut self.scope
    }
}

impl Library {
    /// Creates a library with the given name and root path.
    pub fn new(name: &str, path: &str) -> (r: Library)
        ensures
            r.name@ == name@,
            r.path@ == path@,
            r.lib.path@ == "lib.rs"@,
            r.files@.len() == 0,
            files_unique(r.files@),
    {
        Library { name: name.to_owned(), path: path.to_owned(), lib: File::new("lib.rs"), files: Vec::new() }
    }

    /// Gets the library name.
    pub fn name(&self) -> (r: &str)
        ensures
            r@ == self.name@,
    {
        self.name.as_str()
    }

    /// Sets the library name.
    pub fn set_name(&mut self, name: &str) -> (r: &mut Library)
        ensures
            r.name@ == name@,
            r.path == old(self).path,
            r.lib == old(self).lib,
            r.files == old(self).files,
            *final(self) == *final(r),
    {
        self.name = name.to_owned();
        self
    }

    /// Sets the library name.
    pub fn with_name(self, name: &str) -> (r: Library)
        ensures
            r.name@ == name@,
            r.path == self.path,
            r.lib == self.lib,
            r.files == self.files,
    {
        let mut s = self;
        s.name = name.to_owned();
        s
    }

    /// Gets the library name mutably.
    pub fn name_mut(&mut self) -> (r: &mut String)
        ensures
            *r == old(self).name,
            final(self).name == *final(r),
            final(self).path == old(self).path,
            final(self).lib == old(self).lib,
            final(self).files == old(self).files,
    {
        &mut self.name
    }

    /// Gets the library path.
    pub fn path(&self) -> (r: &str)
        ensures
            r@ == self.path@,
    {
        self.path.as_str()
    }

    /// Sets the library path.
    pub fn set_path(&mut self, path: &str) -> (r: &mut Library)
        ensures
            r.path@ == path@,
            r.name == old(self).name,
            r.lib == old(self).lib,
            r.files == old(self).files,
            *final(self) == *final(r),
    {
        self.path = path.to_owned();
        self
    }

    /// Sets the library path.
    pub fn with_path(self, path: &str) -> (r: Library)
        ensures
            r.path@ == path@,
            r.name == self.name,
            r.lib == self.lib,
            r.files == self.files,
    {
        let mut s = self;
        s.path = path.to_owned();
        s
    }

    /// Gets the library path mutably.
    pub fn path_mut(&mut self) -> (r: &mut String)
        ensures
            *r == old(self).path,
            final(self).path == *final(r),
            final(self).name == old(self).name,
            final(self).lib == old(self).lib,
            final(self).files == old(self).files,
    {
        &mut self.path
    }

    /// Gets the `lib.rs` file.
    pub fn lib(&self) -> (r: &File)
        ensures
            *r == self.lib,
    {
        &self.lib
    }

    /// Sets the `lib.rs` file.
    pub fn set_lib(&mut self, lib: File) -> (r: &mut Library)
        ensures
            r.lib == lib,
            r.name == old(self).name,
            r.path == old(self).path,
            r.files == old(self).files,
            *final(self) == *final(r),
    {
        self.lib = lib;
        self
    }

    /// Sets the `lib.rs` file.
    pub fn with_lib(self, lib: File) -> (r: Library)
        ensures
            r.lib == lib,
            r.name == self.name,
            r.path == self.path,
            r.files == self.files,
    {
        let mut s = self;
        s.lib = lib;
        s
    }

    /// Gets the `lib.rs` file mutably.
    pub fn lib_mut(&mut self) -> (r: &mut File)
        ensures
            *r == old(self).lib,
            final(self).lib == *final(r),
            final(self).name == old(self).name,
            final(self).path == old(self).path,
            final(self).files == old(self).files,
    {
        &mut self.lib
    }

    /// Gets the files.
    pub fn files(&self) -> (r: &Vec<File>)
        ensures
            *r == self.files,
    {
        &self.files
    }

    /// Sets the files.
    pub fn set_files(&mut self, files: Vec<File>) -> (r: &mut Library)
        ensures
            r.files == files,
            r.name == old(self).name,
            r.path == old(self).path,
            r.lib == old(self).lib,
            *final(self) == *final(r),
    {
        self.files = files;
        self
    }

    /// Sets the files.
    pub fn with_files(self, files: Vec<File>) -> (r: Library)
        ensures
            r.files == files,
            r.name == self.name,
            r.path == self.path,
            r.lib == self.lib,
    {
        let mut s = self;
        s.files = files;
        s
    }

    /// Gets the files mutably.
    pub fn files_mut(&mut self) -> (r: &mut Vec<File>)
        ensures
            *r == old(self).files,
            final(self).files == *final(r),
            final(self).name == old(self).name,
            final(self).path == old(self).path,
            final(self).lib == old(self).lib,
    {
        &mut self.files
    }

    /// Adds a file to the library, failing fast on the reserved `lib.rs`
    /// path or a path already taken: success exactly when the path is new.
    pub fn push_file(&mut self, file: File) -> (r: Result<(), LibraryCodegenError>)
        ensures
            r is Ok <==> (file.path@ != "lib.rs"@ && !has_file_path(old(self).files@, file.path@)),
            r is Ok ==> final(self).files@ == old(self).files@.push(file),
            r is Err ==> (*final(self) == *old(self) && (r matches Err(
                LibraryCodegenError::FileAlreadyExists(p),
            ) && p@ == file.path@)),
            final(self).name == old(self).name,
            final(self).path == old(self).path,
            final(self).lib == old(self).lib,
            files_unique(old(self).files@) ==> files_unique(final(self).files@),
    {
        let lib_name = "lib.rs".to_owned();
        if file.path == lib_name {
            return Err(LibraryCodegenError::FileAlreadyExists(file.path));
        }
        let mut i: usize = 0;
        while i < self.files.len()
            invariant
                i <= self.files@.len(),
                forall|j: int| 0 <= j < i ==> (#[trigger] self.files@[j]).path@ != file.path@,
            decreases self.files@.len() - i,
        {
            if self.files[i].path == file.path {
                proof {
                    assert(has_file_path(self.files@, file.path@));
                }
                return Err(LibraryCodegenError::FileAlreadyExists(file.path));
            }
            i = i + 1;
        }
        proof {
            if has_file_path(self.files@, file.path@) {
                let w = choose|w: int|
                    0 <= w < self.files@.len() && (#[trigger] self.files@[w]).path@ == file.path@;
                assert(self.files@[w].path@ != file.path@);
                assert(false);
            }
        }
        let ghost pre = self.files@;
        self.files.push(file);
        proof {
            if files_unique(pre) {
                assert forall|a: int, b: int|
                    0 <= a < b < self.files@.len() implies (#[trigger] self.files@[a]).path@ != (
                #[trigger] self.files@[b]).path@ by {
                    if b == pre.len() as int {
                        assert(self.files@[a].path@ != file.path@);
                    }
                }
            }
        }
        Ok(())
    }
}

} // verus!
