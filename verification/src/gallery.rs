use vstd::prelude::*;

use crate::wire::ImageResponse;

verus! {

/// The gallery client's fetch state: the next page to ask for, the page
/// size, the records shown so far, and the single-flight guard that keeps
/// at most one fetch in flight.
pub struct State {
    pub page: usize,
    pub limit: usize,
    pub images: Vec<ImageResponse>,
    pub loading: bool,
}

impl Default for State {
    /// The opening state: first page, ten records a page, nothing shown,
    /// no fetch in flight.
    fn default() -> (r: State)
        ensures
            r.page == 0,
            r.limit == 10,
            r.images@ == Seq::<ImageResponse>::empty(),
            !r.loading,
    {
        State { page: 0, limit: 10, images: Vec::new(), loading: false }
    }
}

impl State {
    /// Claim the single flight: the caller may start a fetch exactly when
    /// none is in flight, and the guard is set either way, so two
    /// concurrent triggers can never both proceed.
    pub fn begin_fetch(&mut self) -> (proceed: bool)
        ensures
            proceed == !old(self).loading,
            final(self).loading,
            final(self).page == old(self).page,
            final(self).limit == old(self).limit,
            final(self).images@ == old(self).images@,
    {
        if self.loading {
            false
        } else {
            self.loading = true;
            true
        }
    }

    /// A fetch ended in an error: release the guard and change nothing
    /// else.
    pub fn fetch_failed(&mut self)
        ensures
            !final(self).loading,
            final(self).page == old(self).page,
            final(self).limit == old(self).limit,
            final(self).images@ == old(self).images@,
    {
        self.loading = false;
    }

    /// A fetch brought a page of records: append them in order, move to
    /// the next page, and release the guard.
    pub fn fetch_succeeded(&mut self, images: Vec<ImageResponse>)
        requires
            old(self).page < usize::MAX,
        ensures
            !final(self).loading,
            final(self).page == old(self).page + 1,
            final(self).limit == old(self).limit,
            final(self).images@ == old(self).images@ + images@,
    {
        let mut fetched = images;
        self.images.append(&mut fetched);
        self.page = self.page + 1;
        self.loading = false;
    }
}

/// The gallery grid shows two records a row: the number of full rows.
pub fn grid_row_count(n_images: usize) -> (r: usize)
    ensures
        r == n_images / 2,
{
    n_images / 2
}

/// The record shown in a given row and column of the two-wide grid.
pub fn grid_cell_index(row: usize, col: usize) -> (r: usize)
    requires
        2 * row + col <= usize::MAX,
    ensures
        r == 2 * row + col,
{
    2 * row + col
}

/// Whether rendering this cell means the view is near the end of what was
/// fetched, so another page should be asked for.
pub fn should_fetch_more(index: usize, n_images: usize) -> (r: bool)
    ensures
        r == (index + 1 >= n_images),
{
    n_images == 0 || index >= n_images - 1
}

} // verus!
