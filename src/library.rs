use crate::spectrum::Spectrum;
use vstd::prelude::*;

verus! {

/// A named emitter and the spectrum of its reference recording.
pub struct ReferenceSignature {
    pub name: String,
    pub spectrum: Spectrum,
}

/// The reference signatures, loaded once and read-only afterwards; no two
/// share a name.
pub struct ReferenceLibrary {
    entries: Vec<ReferenceSignature>,
}

/// Why a reference library could not be built; either is fatal at startup.
#[derive(PartialEq, Eq, Structural, Debug, Clone, Copy)]
pub enum LibraryError {
    /// The descriptor is malformed: two entries share a name.
    LoadError,
    /// The recording of the entry at `index` is missing or unusable.
    RecordingError { index: usize },
}

/// A descriptor entry as the loader hands it over: the name, and the spectrum
/// of its recording or `None` when the recording could not be read.
pub type LoadedEntry = (String, Option<Spectrum>);

/// Two entries of `e` have the same name.
pub open spec fn has_duplicate_name(e: Seq<LoadedEntry>) -> bool {
    exists|i: int, j: int| 0 <= i < j < e.len() && e[i].0@ == e[j].0@
}

/// Entry `i` is the first whose recording is missing.
pub open spec fn first_missing(e: Seq<LoadedEntry>, i: int) -> bool {
    &&& 0 <= i < e.len()
    &&& e[i].1 is None
    &&& forall|j: int| 0 <= j < i ==> e[j].1 is Some
}

impl View for ReferenceLibrary {
    type V = Seq<(Seq<char>, Seq<(u32, u32)>)>;

    closed spec fn view(&self) -> Seq<(Seq<char>, Seq<(u32, u32)>)> {
        Seq::new(
            self.entries@.len(),
            |i: int| (self.entries@[i].name@, self.entries@[i].spectrum@),
        )
    }
}

impl ReferenceLibrary {
    pub open spec fn wf(&self) -> bool {
        forall|i: int, j: int| 0 <= i < j < self@.len() ==> self@[i].0 != self@[j].0
    }

    /// A library with no entries.
    pub fn empty() -> (lib: Self)
        ensures
            lib.wf(),
            lib@ == Seq::<(Seq<char>, Seq<(u32, u32)>)>::empty(),
    {
        let lib = ReferenceLibrary { entries: Vec::new() };
        assert(lib@ =~= Seq::<(Seq<char>, Seq<(u32, u32)>)>::empty());
        lib
    }

    pub fn len(&self) -> (r: usize)
        ensures
            r == self@.len(),
    {
        self.entries.len()
    }

    pub fn name(&self, i: usize) -> (r: &String)
        requires
            i < self@.len(),
        ensures
            r@ == self@[i as int].0,
    {
        &self.entries[i].name
    }

    pub fn spectrum(&self, i: usize) -> (r: &Spectrum)
        requires
            i < self@.len(),
        ensures
            r@ == self@[i as int].1,
    {
        &self.entries[i].spectrum
    }

    /// The names of the entries, in order.
    pub fn names(&self) -> (r: Vec<String>)
        ensures
            r@.len() == self@.len(),
            forall|i: int| 0 <= i < r@.len() ==> r@[i]@ == self@[i].0,
    {
        let mut out: Vec<String> = Vec::new();
        let mut i: usize = 0;
        while i < self.entries.len()
            invariant
                i <= self@.len(),
                out@.len() == i,
                forall|k: int| 0 <= k < i ==> out@[k]@ == self@[k].0,
            decreases self@.len() - i,
        {
            out.push(self.entries[i].name.clone());
            i = i + 1;
        }
        out
    }

    /// Builds the library from the loaded descriptor entries. Fails with
    /// `LoadError` when two entries share a name, otherwise with
    /// `RecordingError` for the first entry whose recording is missing.
    pub fn build(entries: Vec<LoadedEntry>) -> (r: Result<ReferenceLibrary, LibraryError>)
        ensures
            has_duplicate_name(entries@) ==> r == Err::<ReferenceLibrary, LibraryError>(
                LibraryError::LoadError,
            ),
            !has_duplicate_name(entries@) ==> forall|i: int|
                first_missing(entries@, i) ==> r == Err::<ReferenceLibrary, LibraryError>(
                    LibraryError::RecordingError { index: i as usize },
                ),
            r is Ok <==> !has_duplicate_name(entries@) && forall|i: int|
                0 <= i < entries@.len() ==> entries@[i].1 is Some,
            r matches Ok(lib) ==> lib.wf() && lib@.len() == entries@.len() && forall|i: int|
                0 <= i < entries@.len() ==> lib@[i].0 == entries@[i].0@ && lib@[i].1
                    == entries@[i].1->0@,
    {
        if let Some(_) = find_duplicate_name(&entries) {
            return Err(LibraryError::LoadError);
        }
        let n = entries.len();
        let mut k: usize = 0;
        while k < n
            invariant
                n == entries@.len(),
                k <= n,
                !has_duplicate_name(entries@),
                forall|j: int| 0 <= j < k ==> entries@[j].1 is Some,
            decreases n - k,
        {
            if entries[k].1.is_none() {
                return Err(LibraryError::RecordingError { index: k });
            }
            k = k + 1;
        }
        let ghost orig = entries@;
        let mut rest = entries;
        let mut out: Vec<ReferenceSignature> = Vec::new();
        while rest.len() > 0
            invariant
                n == orig.len(),
                rest@ == orig.subrange(out@.len() as int, n as int),
                out@.len() <= n,
                !has_duplicate_name(orig),
                forall|j: int| 0 <= j < n ==> orig[j].1 is Some,
                forall|j: int|
                    0 <= j < out@.len() ==> out@[j].name@ == orig[j].0@ && out@[j].spectrum@
                        == orig[j].1->0@,
            decreases rest@.len(),
        {
            let (name, recording) = rest.remove(0);
            assert(recording == orig[out@.len() as int].1);
            match recording {
                Some(spectrum) => {
                    out.push(ReferenceSignature { name, spectrum });
                },
                None => {},
            }
            assert(rest@ =~= orig.subrange(out@.len() as int, n as int));
        }
        let lib = ReferenceLibrary { entries: out };
        proof {
            assert forall|i: int, j: int| 0 <= i < j < lib@.len() implies lib@[i].0 != lib@[j].0 by {
                assert(!(orig[i].0@ == orig[j].0@));
            }
        }
        Ok(lib)
    }
}

/// A pair of entries that share a name, if there is one.
fn find_duplicate_name(entries: &Vec<LoadedEntry>) -> (r: Option<(usize, usize)>)
    ensures
        r is None <==> !has_duplicate_name(entries@),
{
    let n = entries.len();
    let mut i: usize = 0;
    while i < n
        invariant
            n == entries@.len(),
            i <= n,
            forall|a: int, b: int| 0 <= a < i && a < b < n ==> entries@[a].0@ != entries@[b].0@,
        decreases n - i,
    {
        let mut j: usize = i + 1;
        while j < n
            invariant
                n == entries@.len(),
                i < n,
                i + 1 <= j <= n,
                forall|b: int| i < b < j ==> entries@[i as int].0@ != entries@[b].0@,
            decreases n - j,
        {
            if entries[i].0 == entries[j].0 {
                return Some((i, j));
            }
            j = j + 1;
        }
        i = i + 1;
    }
    None
}

} // verus!
