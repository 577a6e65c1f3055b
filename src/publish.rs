use vstd::prelude::*;

verus! {

/// The document last written to the destination file, carried from one tick
/// to the next.
///
/// It starts as the file's content at startup (empty when there is no file)
/// and changes only when a replace of the file has succeeded.
pub struct PublishedSnapshot {
    last_serialized: String,
}

impl View for PublishedSnapshot {
    type V = Seq<char>;

    closed spec fn view(&self) -> Seq<char> {
        self.last_serialized@
    }
}

/// Whether a tick that produced `doc` must replace the file whose content is `last`.
pub open spec fn needs_write(last: Seq<char>, doc: Seq<char>) -> bool {
    last != doc
}

/// The snapshot after a tick that produced `doc`, where any replace it made succeeded.
pub open spec fn snapshot_after(last: Seq<char>, doc: Seq<char>) -> Seq<char> {
    if needs_write(last, doc) {
        doc
    } else {
        last
    }
}

/// The snapshot once a replace of the file with `doc` has ended: the new
/// document where the replace succeeded, the old one where it failed.
pub open spec fn snapshot_after_replace(last: Seq<char>, doc: Seq<char>, replaced: bool) -> Seq<
    char,
> {
    if replaced {
        doc
    } else {
        last
    }
}

impl PublishedSnapshot {
    /// A snapshot holding `initial`, the destination's content at startup.
    pub fn new(initial: String) -> (r: PublishedSnapshot)
        ensures
            r@ == initial@,
    {
        PublishedSnapshot { last_serialized: initial }
    }

    /// The document last written.
    pub fn last_serialized(&self) -> (r: &String)
        ensures
            r@ == self@,
    {
        &self.last_serialized
    }

    /// Whether `doc` differs from the last written document, so that the
    /// destination file must be replaced.
    pub fn needs_write(&self, doc: &String) -> (r: bool)
        ensures
            r == needs_write(self@, doc@),
    {
        !(self.last_serialized == *doc)
    }

    /// Records how a replace of the destination file with `doc` ended. A
    /// failed replace leaves the snapshot as it was, so the next tick finds
    /// the same difference and tries again.
    pub fn record_outcome(&mut self, doc: String, replaced: bool)
        ensures
            final(self)@ == snapshot_after_replace(old(self)@, doc@, replaced),
    {
        if replaced {
            self.last_serialized = doc;
        }
    }
}

/// Publishing the same document twice in a row writes at most once: the
/// first publish writes exactly when the document differs from the last one
/// written, and once that write has succeeded the second finds nothing to write.
pub proof fn lemma_publish_twice_writes_once(last: Seq<char>, doc: Seq<char>)
    ensures
        needs_write(last, doc) <==> last != doc,
        snapshot_after(last, doc) == doc,
        needs_write(last, doc) ==> snapshot_after_replace(last, doc, true) == snapshot_after(
            last,
            doc,
        ),
        !needs_write(snapshot_after(last, doc), doc),
{
}

/// A failed replace changes nothing: the snapshot keeps the last document
/// written, and the same document still needs writing.
pub proof fn lemma_failed_replace_is_retried(last: Seq<char>, doc: Seq<char>)
    requires
        needs_write(last, doc),
    ensures
        snapshot_after_replace(last, doc, false) == last,
        needs_write(snapshot_after_replace(last, doc, false), doc),
{
}

} // verus!
