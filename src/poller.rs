use vstd::prelude::*;

verus! {

/// An inclusive range of block heights, `from..=to`.
#[derive(Clone, Copy, Debug, PartialEq, Eq, Structural)]
pub struct BlockRange {
    pub from: u64,
    pub to: u64,
}

/// The range that a tick queries when the watermark is `w` and the chain head is
/// `head`: every block above the watermark up to the head, or none.
pub open spec fn tick_range(w: u64, head: u64) -> Option<BlockRange> {
    if head > w {
        Some(BlockRange { from: (w + 1) as u64, to: head })
    } else {
        None
    }
}

/// The watermark after a tick that saw `head` (`None`: the head query failed) and
/// whose event query succeeded (`fetched`) or failed.
pub open spec fn watermark_after(w: u64, head: Option<u64>, fetched: bool) -> u64 {
    match head {
        Some(h) => if h > w && fetched {
            h
        } else {
            w
        },
        None => w,
    }
}

/// The watermark after a run of ticks without failures that saw the given heads.
pub open spec fn run_watermark(w0: u64, heads: Seq<u64>) -> u64
    decreases heads.len(),
{
    if heads.len() == 0 {
        w0
    } else {
        watermark_after(run_watermark(w0, heads.drop_last()), Some(heads.last()), true)
    }
}

/// The block ranges queried, in order, by a run of ticks without failures.
pub open spec fn run_ranges(w0: u64, heads: Seq<u64>) -> Seq<BlockRange>
    decreases heads.len(),
{
    if heads.len() == 0 {
        Seq::empty()
    } else {
        let prev = run_ranges(w0, heads.drop_last());
        match tick_range(run_watermark(w0, heads.drop_last()), heads.last()) {
            Some(r) => prev.push(r),
            None => prev,
        }
    }
}

/// Whether block `b` lies in range `r`.
pub open spec fn covers(r: BlockRange, b: int) -> bool {
    r.from <= b <= r.to
}

/// Whether some range of `rs` contains block `b`.
pub open spec fn queried(rs: Seq<BlockRange>, b: int) -> bool {
    exists|i: int| 0 <= i < rs.len() && covers(rs[i], b)
}

/// Drives the block poll: which range to query on each tick, and when the
/// watermark (the last fully processed block) moves.
#[derive(Clone, Copy, Debug)]
pub struct Poller {
    pub watermark: u64,
}

impl Poller {
    /// A poller whose watermark starts at `start`, the chain head at start-up.
    pub fn new(start: u64) -> (r: Poller)
        ensures
            r.watermark == start,
    {
        Poller { watermark: start }
    }

    /// The range to query on a tick that observed `head` (`None` when the head
    /// query failed): `watermark + 1 ..= head` when the head is above the
    /// watermark, else nothing.
    pub fn plan(&self, head: Option<u64>) -> (r: Option<BlockRange>)
        ensures
            r == match head {
                Some(h) => tick_range(self.watermark, h),
                None => None::<BlockRange>,
            },
    {
        match head {
            Some(h) => {
                if h > self.watermark {
                    Some(BlockRange { from: self.watermark + 1, to: h })
                } else {
                    None
                }
            },
            None => None,
        }
    }

    /// Ends a tick that queried `range`: the watermark moves to the range's end
    /// only when the events were fetched and the range is the one `plan` gives
    /// for the current watermark; otherwise it stays, and the same blocks are
    /// queried again on the next tick.
    pub fn commit(&mut self, range: BlockRange, fetched: bool)
        ensures
            final(self).watermark == if fetched && tick_range(old(self).watermark, range.to)
                == Some(range) {
                range.to
            } else {
                old(self).watermark
            },
            final(self).watermark >= old(self).watermark,
    {
        if fetched && range.to > self.watermark && range.from == self.watermark + 1 {
            self.watermark = range.to;
        }
    }
}

/// With no failures, the ranges queried over any run of ticks are ordered,
/// disjoint and cover exactly the blocks from just above the starting watermark
/// up to the final watermark; and when the chain head never goes back, the
/// watermark after the last tick is the head that tick observed.
pub proof fn lemma_ticks_cover_exactly(w0: u64, heads: Seq<u64>)
    ensures
        run_watermark(w0, heads) >= w0,
        forall|i: int|
            0 <= i < run_ranges(w0, heads).len() ==> w0 < #[trigger] run_ranges(w0, heads)[i].from
                <= run_ranges(w0, heads)[i].to <= run_watermark(w0, heads),
        forall|i: int, j: int|
            0 <= i < j < run_ranges(w0, heads).len() ==> #[trigger] run_ranges(w0, heads)[i].to
                < #[trigger] run_ranges(w0, heads)[j].from,
        forall|b: int|
            #[trigger] queried(run_ranges(w0, heads), b) <==> w0 < b <= run_watermark(w0, heads),
        (heads.len() > 0 && w0 <= heads[0] && forall|i: int, j: int|
            0 <= i <= j < heads.len() ==> #[trigger] heads[i] <= #[trigger] heads[j]) ==> run_watermark(
            w0,
            heads,
        ) == heads.last(),
    decreases heads.len(),
{
    if heads.len() > 0 {
        let prefix = heads.drop_last();
        lemma_ticks_cover_exactly(w0, prefix);
        let w = run_watermark(w0, prefix);
        let rs = run_ranges(w0, prefix);
        let h = heads.last();
        if h > w {
            let r = BlockRange { from: (w + 1) as u64, to: h };
            assert(run_ranges(w0, heads) == rs.push(r));
            assert forall|i: int, j: int| 0 <= i < j < run_ranges(w0, heads).len() implies #[trigger]
                run_ranges(w0, heads)[i].to < #[trigger] run_ranges(w0, heads)[j].from by {
                assert(run_ranges(w0, heads)[i] == rs[i]);
                if j < rs.len() {
                    assert(run_ranges(w0, heads)[j] == rs[j]);
                } else {
                    assert(w0 < rs[i].from <= rs[i].to <= w);
                }
            }
            assert forall|b: int| #[trigger]
                queried(run_ranges(w0, heads), b) <==> w0 < b <= run_watermark(w0, heads) by {
                if w0 < b <= run_watermark(w0, heads) {
                    if b > w {
                        assert(covers(run_ranges(w0, heads)[rs.len() as int], b));
                    } else {
                        assert(queried(rs, b));
                        let i = choose|i: int| 0 <= i < rs.len() && covers(rs[i], b);
                        assert(covers(run_ranges(w0, heads)[i], b));
                    }
                }
                if queried(run_ranges(w0, heads), b) {
                    let i = choose|i: int|
                        0 <= i < run_ranges(w0, heads).len() && covers(run_ranges(w0, heads)[i], b);
                    assert(run_ranges(w0, heads)[i].from <= b);
                    if i < rs.len() {
                        assert(run_ranges(w0, heads)[i] == rs[i]);
                    }
                }
            }
        } else {
            assert(run_ranges(w0, heads) == rs);
            assert forall|b: int| #[trigger]
                queried(run_ranges(w0, heads), b) <==> w0 < b <= run_watermark(w0, heads) by {
                assert(queried(rs, b) <==> w0 < b <= w);
            }
        }
        if heads.len() > 1 && w0 <= heads[0] && forall|i: int, j: int|
            0 <= i <= j < heads.len() ==> #[trigger] heads[i] <= #[trigger] heads[j] {
            assert(prefix[0] == heads[0]);
            assert forall|i: int, j: int| 0 <= i <= j < prefix.len() implies #[trigger] prefix[i]
                <= #[trigger] prefix[j] by {
                assert(prefix[i] == heads[i] && prefix[j] == heads[j]);
            }
            assert(heads[prefix.len() - 1] <= heads[heads.len() - 1]);
        }
    }
}

/// A tick whose head query or event query fails leaves the watermark where it
/// was, so the next tick queries the same blocks again: the same range when it
/// sees the same head, and a range that starts at the same block and contains
/// the failed one when the head has grown.
pub proof fn lemma_failed_tick_requeries(w: u64, head: Option<u64>, fetched: bool, next: u64)
    requires
        head is None || !fetched,
    ensures
        watermark_after(w, head, fetched) == w,
        tick_range(watermark_after(w, head, fetched), next) == tick_range(w, next),
        head is Some && tick_range(w, head->0) is Some && next >= head->0 ==> {
            let failed = tick_range(w, head->0)->0;
            let again = tick_range(watermark_after(w, head, fetched), next)->0;
            again.from == failed.from && again.to >= failed.to
        },
{
}

} // verus!
