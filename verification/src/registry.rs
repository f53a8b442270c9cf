//! The engine handle's source registry.
//!
//! Every registered source gets an identity (anonymous, or a real path),
//! its text as bytes, and the computed line-start offsets used to attribute
//! diagnostics. Entries are append-only and immutable once registered; the
//! whole registry lives exactly as long as the handle that owns it.

use vstd::prelude::*;

use vstd::string::StringSliceAdditionalSpecFns;

verus! {

/// The identity of a registered source.
pub enum FileName {
    /// A source supplied without a path; diagnostics carry no file reference.
    Anon,
    /// A source bound to a real path.
    Real(String),
}

/// The mathematical value of a `FileName`.
pub enum SpecFileName {
    Anon,
    Real(Seq<char>),
}

impl View for FileName {
    type V = SpecFileName;

    open spec fn view(&self) -> SpecFileName {
        match self {
            FileName::Anon => SpecFileName::Anon,
            FileName::Real(p) => SpecFileName::Real(p@),
        }
    }
}

/// Line-start offsets of a byte sequence: offset zero, then the offset just
/// past each newline byte, in increasing order.
pub open spec fn spec_line_starts(s: Seq<u8>) -> Seq<usize>
    decreases s.len(),
{
    if s.len() == 0 {
        seq![0usize]
    } else if s.last() == 10u8 {
        spec_line_starts(s.drop_last()).push(s.len() as usize)
    } else {
        spec_line_starts(s.drop_last())
    }
}

/// A line-start table is never empty.
pub proof fn lemma_line_starts_len(s: Seq<u8>)
    ensures
        1 <= spec_line_starts(s).len() <= s.len() + 1,
    decreases s.len(),
{
    if s.len() > 0 {
        lemma_line_starts_len(s.drop_last());
    }
}

/// A line-start table begins at offset zero.
pub proof fn lemma_line_starts_first(s: Seq<u8>)
    ensures
        spec_line_starts(s).len() > 0,
        spec_line_starts(s)[0] == 0,
    decreases s.len(),
{
    lemma_line_starts_len(s);
    if s.len() > 0 {
        lemma_line_starts_first(s.drop_last());
    }
}

/// Computes the line-start table of a source's bytes.
pub fn compute_line_starts(src: &Vec<u8>) -> (r: Vec<usize>)
    ensures
        r@ == spec_line_starts(src@),
{
    let mut r: Vec<usize> = Vec::new();
    r.push(0);
    proof {
        assert(src@.take(0) =~= Seq::<u8>::empty());
        assert(r@ =~= seq![0usize]);
    }
    let mut i: usize = 0;
    while i < src.len()
        invariant
            i <= src.len(),
            r@ == spec_line_starts(src@.take(i as int)),
        decreases src.len() - i,
    {
        proof {
            assert(src@.take(i + 1).drop_last() =~= src@.take(i as int));
            assert(src@.take(i + 1).last() == src@[i as int]);
        }
        if src[i] == 10 {
            r.push(i + 1);
        }
        i = i + 1;
    }
    proof {
        assert(src@.take(src.len() as int) =~= src@);
    }
    r
}

/// The index of the line containing byte offset `off`: the position of the
/// last line start that is at most `off`, or zero if there is none.
pub open spec fn spec_line_index(starts: Seq<usize>, off: usize) -> int
    decreases starts.len(),
{
    if starts.len() == 0 {
        0
    } else if starts.last() <= off {
        starts.len() - 1
    } else {
        spec_line_index(starts.drop_last(), off)
    }
}

/// In a table that begins at offset zero, the line index is in bounds and
/// its line start does not exceed the offset.
pub proof fn lemma_line_index_bounds(starts: Seq<usize>, off: usize)
    requires
        starts.len() > 0,
        starts[0] == 0,
    ensures
        0 <= spec_line_index(starts, off) < starts.len(),
        starts[spec_line_index(starts, off)] <= off,
    decreases starts.len(),
{
    if starts.last() <= off {
    } else {
        assert(starts.len() > 1);
        lemma_line_index_bounds(starts.drop_last(), off);
    }
}

/// Finds the line containing byte offset `off`.
pub fn line_index(starts: &Vec<usize>, off: usize) -> (r: usize)
    requires
        starts@.len() > 0,
    ensures
        r == spec_line_index(starts@, off),
{
    let mut i: usize = starts.len();
    proof {
        assert(starts@.take(starts@.len() as int) =~= starts@);
    }
    while i > 0
        invariant
            i <= starts@.len(),
            spec_line_index(starts@, off) == spec_line_index(starts@.take(i as int), off),
        decreases i,
    {
        proof {
            assert(starts@.take(i as int).last() == starts@[i - 1]);
            assert(starts@.take(i as int).drop_last() =~= starts@.take(i as int - 1));
        }
        if starts[i - 1] <= off {
            return i - 1;
        }
        i = i - 1;
    }
    proof {
        assert(starts@.take(0) =~= Seq::<usize>::empty());
    }
    0
}

/// One registered source: its identity, its text as bytes, and its computed
/// line-start table.
pub struct SourceFile {
    pub name: FileName,
    pub src: Vec<u8>,
    pub line_starts: Vec<usize>,
}

/// The mathematical value of a `SourceFile`.
pub struct SpecSourceFile {
    pub name: SpecFileName,
    pub src: Seq<u8>,
    pub line_starts: Seq<usize>,
}

impl SpecSourceFile {
    /// The line-start table is the one computed from the bytes.
    pub open spec fn wf(self) -> bool {
        self.line_starts == spec_line_starts(self.src)
    }
}

impl View for SourceFile {
    type V = SpecSourceFile;

    open spec fn view(&self) -> SpecSourceFile {
        SpecSourceFile { name: self.name@, src: self.src@, line_starts: self.line_starts@ }
    }
}

/// The entry that registering `text` under `name` produces.
pub open spec fn spec_source_file(name: SpecFileName, src: Seq<u8>) -> SpecSourceFile {
    SpecSourceFile { name, src, line_starts: spec_line_starts(src) }
}

/// The engine handle's state: the append-only registry of sources.
pub struct SourceRegistry {
    files: Vec<SourceFile>,
}

impl View for SourceRegistry {
    type V = Seq<SpecSourceFile>;

    closed spec fn view(&self) -> Seq<SpecSourceFile> {
        self.files@.map_values(|f: SourceFile| f@)
    }
}

impl SourceRegistry {
    /// Constructs a fresh, empty registry. Construction is infallible.
    pub fn create() -> (r: Self)
        ensures
            r@ == Seq::<SpecSourceFile>::empty(),
    {
        let r = SourceRegistry { files: Vec::new() };
        proof {
            assert(r@ =~= Seq::<SpecSourceFile>::empty());
        }
        r
    }

    /// How many sources are registered.
    pub fn len(&self) -> (n: usize)
        ensures
            n == self@.len(),
    {
        self.files.len()
    }

    /// A registered source, by its registration index.
    pub fn file(&self, idx: usize) -> (f: &SourceFile)
        requires
            idx < self@.len(),
        ensures
            f@ == self@[idx as int],
    {
        &self.files[idx]
    }

    /// Registers a source under the given identity. The new entry is
    /// appended; every earlier entry is left exactly as it was.
    pub fn new_source_file(&mut self, name: FileName, text: &str) -> (idx: usize)
        ensures
            final(self)@ == old(self)@.push(spec_source_file(name@, text.spec_bytes())),
            final(self)@[idx as int].wf(),
            idx == old(self)@.len(),
    {
        let ghost entry_spec = spec_source_file(name@, text.spec_bytes());
        let bytes = text.as_bytes_vec();
        let starts = compute_line_starts(&bytes);
        let idx = self.files.len();
        let entry = SourceFile { name, src: bytes, line_starts: starts };
        proof {
            assert(entry@ == entry_spec);
        }
        self.files.push(entry);
        proof {
            assert(self.files@.map_values(|f: SourceFile| f@) =~= old(self).files@.map_values(
                |f: SourceFile| f@,
            ).push(entry_spec));
        }
        idx
    }
}

} // verus!
