use vstd::prelude::*;

use crate::error::BuildError;

verus! {

/// What to do for one photo while writing the site. Its page is written in
/// any case.
#[derive(Debug, Clone, Copy, PartialEq, Eq, Structural)]
pub struct PhotoTasks {
    /// Copy the source image into the photo's directory.
    pub copy_image: bool,
    /// Dispatch a thumbnail job for the photo.
    pub make_thumbnail: bool,
}

/// Where a site build stands.
#[derive(Debug, Clone, Copy, PartialEq, Eq, Structural)]
pub enum Stage {
    /// Photos are being processed and thumbnail jobs dispatched.
    Photos,
    /// All jobs succeeded: the album page and assets may be written.
    Finished,
    /// At least one thumbnail job failed.
    Failed,
}

/// The work owed for a photo: only outputs that are absent are produced.
pub open spec fn tasks_for(image_exists: bool, thumb_exists: bool) -> PhotoTasks {
    PhotoTasks { copy_image: !image_exists, make_thumbnail: !thumb_exists }
}

/// The number of image copies made for photos whose outputs were probed as
/// `probes` (image present, thumbnail present).
pub open spec fn copies(probes: Seq<(bool, bool)>) -> nat
    decreases probes.len(),
{
    if probes.len() == 0 {
        0
    } else {
        copies(probes.drop_last()) + if probes.last().0 {
            0nat
        } else {
            1nat
        }
    }
}

/// The number of thumbnail jobs dispatched for photos probed as `probes`.
pub open spec fn thumbs(probes: Seq<(bool, bool)>) -> nat
    decreases probes.len(),
{
    if probes.len() == 0 {
        0
    } else {
        thumbs(probes.drop_last()) + if probes.last().1 {
            0nat
        } else {
            1nat
        }
    }
}

/// The decisions of writing an album's site. The caller performs the I/O:
/// it creates directories, probes which outputs exist, copies, runs the
/// thumbnail jobs on a worker pool, writes pages, and reports back.
pub struct SiteWriter {
    /// The number of photos of the album.
    pub n_photos: usize,
    /// The number of photos processed so far.
    pub next: usize,
    /// The number of thumbnail jobs dispatched so far.
    pub dispatched: usize,
    /// The number of image copies made so far.
    pub copied: usize,
    pub stage: Stage,
    /// What was found on disk for each photo processed so far.
    pub probes: Ghost<Seq<(bool, bool)>>,
}

impl SiteWriter {
    pub open spec fn wf(&self) -> bool {
        &&& self.next <= self.n_photos
        &&& self.probes@.len() == self.next
        &&& self.dispatched == thumbs(self.probes@)
        &&& self.copied == copies(self.probes@)
    }

    /// Starts writing an album with `n_photos` photos.
    pub fn new(n_photos: usize) -> (r: SiteWriter)
        ensures
            r.wf(),
            r.n_photos == n_photos,
            r.next == 0,
            r.dispatched == 0,
            r.copied == 0,
            r.stage == Stage::Photos,
    {
        SiteWriter {
            n_photos,
            next: 0,
            dispatched: 0,
            copied: 0,
            stage: Stage::Photos,
            probes: Ghost(Seq::empty()),
        }
    }

    /// Whether every photo has been processed.
    pub fn photos_done(&self) -> (r: bool)
        ensures
            r == (self.next == self.n_photos),
    {
        self.next == self.n_photos
    }

    /// Decides the work for the next photo, given whether its copied image
    /// and its thumbnail already exist: copy if absent, thumbnail if absent.
    pub fn photo(&mut self, image_exists: bool, thumb_exists: bool) -> (r: PhotoTasks)
        requires
            old(self).wf(),
            old(self).stage == Stage::Photos,
            old(self).next < old(self).n_photos,
        ensures
            final(self).wf(),
            r == tasks_for(image_exists, thumb_exists),
            final(self).n_photos == old(self).n_photos,
            final(self).stage == Stage::Photos,
            final(self).next == old(self).next + 1,
            final(self).probes@ == old(self).probes@.push((image_exists, thumb_exists)),
            final(self).dispatched == old(self).dispatched + if thumb_exists {
                0int
            } else {
                1int
            },
            final(self).copied == old(self).copied + if image_exists {
                0int
            } else {
                1int
            },
    {
        let ghost p = self.probes@.push((image_exists, thumb_exists));
        assert(p.drop_last() =~= self.probes@);
        proof {
            lemma_counts_bounded(self.probes@);
        }
        if !thumb_exists {
            self.dispatched = self.dispatched + 1;
        }
        if !image_exists {
            self.copied = self.copied + 1;
        }
        self.next = self.next + 1;
        self.probes = Ghost(p);
        PhotoTasks { copy_image: !image_exists, make_thumbnail: !thumb_exists }
    }

    /// Takes in the outcome of the join: the number of dispatched jobs that
    /// failed. Any failure fails the whole build; otherwise the album page and
    /// assets are to be written.
    pub fn joined(&mut self, failed: usize) -> (r: Result<(), BuildError>)
        requires
            old(self).wf(),
            old(self).stage == Stage::Photos,
            old(self).next == old(self).n_photos,
            failed <= old(self).dispatched,
        ensures
            final(self).wf(),
            final(self).n_photos == old(self).n_photos,
            final(self).next == old(self).next,
            final(self).dispatched == old(self).dispatched,
            final(self).copied == old(self).copied,
            final(self).probes == old(self).probes,
            (r is Ok) == (failed == 0),
            match r {
                Ok(_) => final(self).stage == Stage::Finished,
                Err(e) => final(self).stage == Stage::Failed && e == (BuildError::AggregatedJobFailure {
                    failed,
                    dispatched: old(self).dispatched,
                }),
            },
    {
        if failed == 0 {
            self.stage = Stage::Finished;
            Ok(())
        } else {
            self.stage = Stage::Failed;
            Err(BuildError::AggregatedJobFailure { failed, dispatched: self.dispatched })
        }
    }
}

proof fn lemma_counts_bounded(probes: Seq<(bool, bool)>)
    ensures
        copies(probes) <= probes.len(),
        thumbs(probes) <= probes.len(),
    decreases probes.len(),
{
    if probes.len() > 0 {
        lemma_counts_bounded(probes.drop_last());
    }
}

/// When every photo's image and thumbnail are already on disk, as after a
/// completed build, writing the site again copies nothing and dispatches no
/// thumbnail job.
pub proof fn lemma_rebuild_does_no_work(probes: Seq<(bool, bool)>)
    requires
        forall|i: int| 0 <= i < probes.len() ==> (#[trigger] probes[i]).0 && probes[i].1,
    ensures
        copies(probes) == 0,
        thumbs(probes) == 0,
    decreases probes.len(),
{
    if probes.len() > 0 {
        lemma_rebuild_does_no_work(probes.drop_last());
    }
}

/// Adding photos whose outputs are absent to a rebuilt album costs exactly
/// one copy and one thumbnail job for each added photo.
pub proof fn lemma_new_photos_only(old_probes: Seq<(bool, bool)>, added: Seq<(bool, bool)>)
    requires
        forall|i: int| 0 <= i < old_probes.len() ==> (#[trigger] old_probes[i]).0 && old_probes[i].1,
        forall|i: int| 0 <= i < added.len() ==> !(#[trigger] added[i]).0 && !added[i].1,
    ensures
        copies(old_probes + added) == added.len(),
        thumbs(old_probes + added) == added.len(),
    decreases added.len(),
{
    if added.len() == 0 {
        assert(old_probes + added =~= old_probes);
        lemma_rebuild_does_no_work(old_probes);
    } else {
        let rest = added.drop_last();
        assert((old_probes + added).drop_last() =~= old_probes + rest);
        lemma_new_photos_only(old_probes, rest);
    }
}

} // verus!
