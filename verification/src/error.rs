use vstd::prelude::*;

verus! {

/// A failure of one step of the column-projection pipeline.
///
/// Every kind is terminal for the current run: the pipeline stops at the
/// step where the error arose and no later step runs. The payload is a
/// human-readable description of the context (for `MissingColumn`, the
/// name of the column that the projected schema asks for but the batch
/// does not hold).
#[derive(Debug, Clone, PartialEq, Eq)]
pub enum SelectError {
    /// Invalid caller-supplied configuration, such as an unrecognized
    /// durability alias. Detected before any I/O begins.
    Config(String),
    /// The input stream cannot be parsed as a valid table file.
    ReaderInit(String),
    /// A column named by the projected schema is absent from an input
    /// batch; the payload is that column's name.
    MissingColumn(String),
    /// A reconstructed batch violates a structural invariant, such as a
    /// column whose length disagrees with the batch's row count.
    SchemaMismatch(String),
    /// The input sequence itself failed to produce a batch.
    UpstreamRead(String),
    /// The output writer rejected a batch or could not be set up.
    Write(String),
    /// The output writer failed while completing the file's structure.
    Finalize(String),
    /// The final flush or sync of the output file failed. The sync step
    /// runs where the raw file handle lives, outside this library, so this
    /// kind is constructed by the embedding that owns the handle.
    Durability(String),
}

impl SelectError {
    /// The description carried by this error, whatever its kind.
    pub fn message(&self) -> (r: String)
        ensures
            (self matches SelectError::Config(m) ==> r@ == m@),
            (self matches SelectError::ReaderInit(m) ==> r@ == m@),
            (self matches SelectError::MissingColumn(m) ==> r@ == m@),
            (self matches SelectError::SchemaMismatch(m) ==> r@ == m@),
            (self matches SelectError::UpstreamRead(m) ==> r@ == m@),
            (self matches SelectError::Write(m) ==> r@ == m@),
            (self matches SelectError::Finalize(m) ==> r@ == m@),
            (self matches SelectError::Durability(m) ==> r@ == m@),
    {
        match self {
            SelectError::Config(m) => m.clone(),
            SelectError::ReaderInit(m) => m.clone(),
            SelectError::MissingColumn(m) => m.clone(),
            SelectError::SchemaMismatch(m) => m.clone(),
            SelectError::UpstreamRead(m) => m.clone(),
            SelectError::Write(m) => m.clone(),
            SelectError::Finalize(m) => m.clone(),
            SelectError::Durability(m) => m.clone(),
        }
    }
}

} // verus!
