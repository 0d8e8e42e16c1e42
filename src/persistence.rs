use vstd::prelude::*;

use crate::world::{Point, World};

verus! {

/// Why a saved layout could not be written or read back.
#[derive(Clone, Copy, Debug, PartialEq, Eq, Structural)]
pub enum PersistenceError {
    /// There is no saved document.
    NotFound,
    /// The saved document is not a valid layout.
    ParseError,
    /// The document could not be written.
    WriteFailed,
}

/// The registry's contents after a load attempt that produced `loaded`: the
/// loaded objects on success, the contents `before` on failure.
pub open spec fn contents_after_load(
    before: Seq<Point>,
    loaded: Result<Vec<Point>, PersistenceError>,
) -> Seq<Point> {
    match loaded {
        Ok(v) => v@,
        Err(_) => before,
    }
}

impl World {
    /// A copy of every placed object, in the registry's order: what a save writes.
    pub fn snapshot(&self) -> (r: Vec<Point>)
        ensures
            r@ == self.points@,
    {
        let mut out: Vec<Point> = Vec::new();
        let mut i: usize = 0;
        while i < self.points.len()
            invariant
                i <= self.points@.len(),
                out@ == self.points@.subrange(0, i as int),
            decreases self.points@.len() - i,
        {
            out.push(self.points[i]);
            i += 1;
            proof {
                assert(out@ == self.points@.subrange(0, i as int));
            }
        }
        proof {
            assert(self.points@.subrange(0, self.points@.len() as int) == self.points@);
        }
        out
    }

    /// Applies the outcome of reading a saved layout. On success the loaded
    /// objects replace the whole registry; on failure the registry is kept and
    /// the error is handed back.
    pub fn load(&mut self, loaded: Result<Vec<Point>, PersistenceError>) -> (r: Result<
        (),
        PersistenceError,
    >)
        ensures
            final(self).points@ == contents_after_load(old(self).points@, loaded),
            r is Ok <==> loaded is Ok,
            loaded matches Err(e) ==> r == Err::<(), PersistenceError>(e),
    {
        match loaded {
            Ok(points) => {
                self.replace_all(points);
                Ok(())
            },
            Err(e) => Err(e),
        }
    }
}

/// Saving a registry and loading what was saved into any registry gives back
/// the saved objects, whatever the loading registry held before.
pub proof fn lemma_save_load_round_trip(saved: Seq<Point>, before: Seq<Point>, file: Vec<Point>)
    requires
        file@ == saved,
    ensures
        contents_after_load(before, Ok(file)) == saved,
        forall|p: Point| #[trigger]
            contents_after_load(before, Ok(file)).contains(p) <==> saved.contains(p),
{
}

} // verus!
