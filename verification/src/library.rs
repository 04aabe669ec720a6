//! The loaded image of the shared library and the count of those who hold it.

use vstd::prelude::*;

verus! {

/// Why a library could not be loaded.
#[derive(Debug, Clone, Copy, PartialEq, Eq, Structural)]
pub enum LoadError {
    /// There is no file at the path.
    NotFound,
    /// There is a file at the path, and it could not be loaded.
    InvalidImage,
}

/// What a `DynamicLibrary` stands for.
pub struct LibraryModel {
    /// The path it was loaded from.
    pub path: Seq<char>,
    /// What the loader gave for the image; never null.
    pub image: usize,
    /// How many hold the image. At zero it is unloaded.
    pub references: nat,
}

impl LibraryModel {
    /// The image is still loaded.
    pub open spec fn is_loaded(self) -> bool {
        self.references > 0
    }

    /// After one more holder, where the count has room for one.
    pub open spec fn share(self) -> LibraryModel {
        if self.is_loaded() && self.references < usize::MAX {
            LibraryModel { references: self.references + 1, ..self }
        } else {
            self
        }
    }

    /// After one holder has let go.
    pub open spec fn release(self) -> LibraryModel {
        if self.is_loaded() {
            LibraryModel { references: (self.references - 1) as nat, ..self }
        } else {
            self
        }
    }

    /// Letting go now unloads the image.
    pub open spec fn release_unloads(self) -> bool {
        self.references == 1
    }

    /// After `n` holders have let go, one after the other.
    pub open spec fn release_n(self, n: nat) -> LibraryModel
        decreases n,
    {
        if n == 0 {
            self
        } else {
            self.release().release_n((n - 1) as nat)
        }
    }

    /// How often the image is unloaded while `n` holders let go.
    pub open spec fn unloads(self, n: nat) -> nat
        decreases n,
    {
        if n == 0 {
            0
        } else {
            (if self.release_unloads() {
                1nat
            } else {
                0nat
            }) + self.release().unloads((n - 1) as nat)
        }
    }
}

/// The image is unloaded when the last holder lets go, not before, and
/// never again.
pub proof fn lemma_unloaded_exactly_once(library: LibraryModel, n: nat)
    requires
        library.is_loaded(),
    ensures
        n < library.references ==> library.unloads(n) == 0 && library.release_n(n).is_loaded(),
        n >= library.references ==> library.unloads(n) == 1 && !library.release_n(n).is_loaded(),
    decreases n,
{
    if n > 0 {
        let next = library.release();
        if next.is_loaded() {
            lemma_unloaded_exactly_once(next, (n - 1) as nat);
        } else {
            lemma_unloaded_stays(next, (n - 1) as nat);
        }
    }
}

/// Once unloaded, nothing more happens.
pub proof fn lemma_unloaded_stays(library: LibraryModel, n: nat)
    requires
        !library.is_loaded(),
    ensures
        library.unloads(n) == 0,
        library.release_n(n) == library,
    decreases n,
{
    if n > 0 {
        lemma_unloaded_stays(library.release(), (n - 1) as nat);
    }
}

/// A loaded shared library. Loading gives it one holder; it is unloaded when
/// the last holder lets go.
#[derive(Debug)]
pub struct DynamicLibrary {
    path: String,
    image: usize,
    references: usize,
}

impl DynamicLibrary {
    /// What the library stands for.
    pub closed spec fn view(&self) -> LibraryModel {
        LibraryModel {
            path: self.path@,
            image: self.image,
            references: self.references as nat,
        }
    }

    /// The image is not null.
    pub open spec fn wf(&self) -> bool {
        self@.image != 0
    }

    /// Takes the outcome of opening the shared object at `path`: `image` is
    /// what the loader gave, null where it failed, and `file_present` says
    /// whether a file is at the path.
    pub fn load(path: String, file_present: bool, image: usize) -> (library: Result<
        DynamicLibrary,
        LoadError,
    >)
        ensures
            library is Ok <==> image != 0,
            library matches Ok(l) ==> l.wf() && l@ == (LibraryModel {
                path: path@,
                image: image,
                references: 1,
            }),
            library matches Err(e) ==> e == (if file_present {
                LoadError::InvalidImage
            } else {
                LoadError::NotFound
            }),
    {
        if image != 0 {
            Ok(DynamicLibrary { path, image, references: 1 })
        } else if file_present {
            Err(LoadError::InvalidImage)
        } else {
            Err(LoadError::NotFound)
        }
    }

    /// The path it was loaded from.
    pub fn path(&self) -> (path: &str)
        ensures
            path@ == self@.path,
    {
        self.path.as_str()
    }

    /// What the loader gave for the image.
    pub fn image(&self) -> (image: usize)
        ensures
            image == self@.image,
    {
        self.image
    }

    /// Whether the image is still loaded.
    pub fn is_loaded(&self) -> (loaded: bool)
        ensures
            loaded == self@.is_loaded(),
    {
        self.references > 0
    }

    /// How many hold the image.
    pub fn references(&self) -> (n: usize)
        ensures
            n == self@.references,
    {
        self.references
    }

    /// Counts one more holder; the image is not loaded again. Says whether
    /// the holder was counted: not when the image is unloaded, nor when the
    /// count is full.
    pub fn share(&mut self) -> (counted: bool)
        ensures
            final(self)@ == old(self)@.share(),
            counted == (old(self)@.is_loaded() && old(self)@.references < usize::MAX),
            old(self).wf() ==> final(self).wf(),
    {
        if self.references > 0 && self.references < usize::MAX {
            self.references = self.references + 1;
            true
        } else {
            false
        }
    }

    /// One holder lets go. Says whether that was the last one: then, and
    /// only then, the image is to be unloaded.
    pub fn release(&mut self) -> (unload: bool)
        ensures
            final(self)@ == old(self)@.release(),
            unload == old(self)@.release_unloads(),
            old(self).wf() ==> final(self).wf(),
    {
        if self.references > 0 {
            self.references = self.references - 1;
            self.references == 0
        } else {
            false
        }
    }
}

} // verus!
