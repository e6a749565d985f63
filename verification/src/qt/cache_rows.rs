//! The cache section of the account page: total usage and the largest
//! buckets, largest first.

use vstd::prelude::*;
use vstd::string::*;
use crate::qt::detail::bucket_label;
use crate::qt::detail::cache_bucket_label;
use crate::qt::format::{format_bytes, formatted_bytes};
use crate::qt::models::{DetailRowView, QtDetailRow, route_row_view, rows_view};
use crate::text::{decimal, decimal_string};

verus! {

/// One entry of the cache directory: its name, bytes and file count.
pub struct CacheBucket {
    pub name: String,
    pub bytes: u64,
    pub files: usize,
}

/// A cache bucket as a view.
pub struct BucketView {
    pub name: Seq<char>,
    pub bytes: u64,
    pub files: usize,
}

impl View for CacheBucket {
    type V = BucketView;

    open spec fn view(&self) -> BucketView {
        BucketView { name: self.name@, bytes: self.bytes, files: self.files }
    }
}

impl Clone for CacheBucket {
    fn clone(&self) -> (r: Self)
        ensures
            r@ == self@,
    {
        CacheBucket { name: self.name.clone(), bytes: self.bytes, files: self.files }
    }
}

/// What was found of the cache directory.
pub enum CacheDirInfo {
    /// The platform has no cache directory.
    Unavailable,
    /// The directory does not exist yet; `display` is its path as shown.
    NotCreated { display: String },
    /// The directory exists: its total usage and its entries as read.
    Present { total_bytes: u64, total_files: usize, buckets: Vec<CacheBucket> },
}

/// The views of a list of buckets.
pub open spec fn buckets_view(s: Seq<CacheBucket>) -> Seq<BucketView> {
    s.map_values(|b: CacheBucket| b@)
}

/// `out` is `input` sorted largest first, buckets of equal size in their
/// input order; `perm[k]` is the input position of `out[k]`.
pub open spec fn stable_by_size_desc(input: Seq<BucketView>, out: Seq<BucketView>, perm: Seq<int>) -> bool {
    &&& out.len() == input.len()
    &&& perm.len() == input.len()
    &&& forall|k: int| 0 <= k < out.len() ==> 0 <= #[trigger] perm[k] < input.len() && out[k] == input[perm[k]]
    &&& forall|k: int, l: int| 0 <= k < l < out.len() ==> #[trigger] perm[k] != #[trigger] perm[l]
    &&& forall|k: int, l: int| 0 <= k < l < out.len() ==> (#[trigger] out[k]).bytes >= (#[trigger] out[l]).bytes
    &&& forall|k: int, l: int|
        0 <= k < l < out.len() && (#[trigger] out[k]).bytes == (#[trigger] out[l]).bytes ==> perm[k] < perm[l]
}

/// Inserting the next input element after every element at least as large
/// keeps the arrangement a stable sort of the longer input prefix.
proof fn lemma_insert_step(input: Seq<BucketView>, i: int, out: Seq<BucketView>, perm: Seq<int>, p: int)
    requires
        0 <= i < input.len(),
        stable_by_size_desc(input.take(i), out, perm),
        0 <= p <= out.len(),
        forall|k: int| 0 <= k < p ==> (#[trigger] out[k]).bytes >= input[i].bytes,
        forall|k: int| p <= k < out.len() ==> (#[trigger] out[k]).bytes < input[i].bytes,
    ensures
        stable_by_size_desc(input.take(i + 1), out.insert(p, input[i]), perm.insert(p, i)),
{
    let o2 = out.insert(p, input[i]);
    let p2 = perm.insert(p, i);
    let pre = input.take(i);
    let pre2 = input.take(i + 1);
    out.insert_ensures(p, input[i]);
    perm.insert_ensures(p, i);
    assert forall|k: int| 0 <= k < o2.len() implies 0 <= #[trigger] p2[k] < pre2.len() && o2[k] == pre2[p2[k]] by {
        if k < p {
            assert(p2[k] == perm[k]);
            assert(o2[k] == out[k]);
        } else if k == p {
        } else {
            assert(p2[k] == perm[k - 1]);
            assert(o2[k] == out[k - 1]);
        }
    }
    assert forall|k: int, l: int| 0 <= k < l < o2.len() implies #[trigger] p2[k] != #[trigger] p2[l] by {
        let kk = if k < p { k } else { k - 1 };
        let ll = if l < p { l } else { l - 1 };
        if k != p && l != p {
            assert(p2[k] == perm[kk]);
            assert(p2[l] == perm[ll]);
            assert(kk < ll);
        } else if k == p {
            assert(p2[l] == perm[ll]);
        } else {
            assert(p2[k] == perm[kk]);
        }
    }
    assert forall|k: int, l: int| 0 <= k < l < o2.len() implies (#[trigger] o2[k]).bytes >= (#[trigger] o2[l]).bytes by {
        let kk = if k < p { k } else { k - 1 };
        let ll = if l < p { l } else { l - 1 };
        if k != p && l != p {
            assert(o2[k] == out[kk]);
            assert(o2[l] == out[ll]);
        } else if k == p {
            assert(o2[l] == out[ll]);
        } else {
            assert(o2[k] == out[kk]);
        }
    }
    assert forall|k: int, l: int|
        0 <= k < l < o2.len() && (#[trigger] o2[k]).bytes == (#[trigger] o2[l]).bytes implies p2[k] < p2[l] by {
        let kk = if k < p { k } else { k - 1 };
        let ll = if l < p { l } else { l - 1 };
        if k != p && l != p {
            assert(o2[k] == out[kk]);
            assert(o2[l] == out[ll]);
            assert(p2[k] == perm[kk]);
            assert(p2[l] == perm[ll]);
        } else if k == p {
            assert(o2[l] == out[ll]);
        } else {
            assert(p2[k] == perm[kk]);
        }
    }
}

/// Sorts buckets largest first, keeping buckets of equal size in order, as
/// a stable sort by descending size does.
pub fn sort_buckets_by_size(buckets: &Vec<CacheBucket>) -> (r: Vec<CacheBucket>)
    ensures
        exists|perm: Seq<int>| stable_by_size_desc(buckets_view(buckets@), buckets_view(r@), perm),
{
    let ghost input = buckets_view(buckets@);
    let mut out: Vec<CacheBucket> = Vec::new();
    let ghost mut perm: Seq<int> = Seq::empty();
    assert(stable_by_size_desc(input.take(0), buckets_view(out@), perm));
    let mut i: usize = 0;
    while i < buckets.len()
        invariant
            input == buckets_view(buckets@),
            input.len() == buckets@.len(),
            i <= buckets@.len(),
            stable_by_size_desc(input.take(i as int), buckets_view(out@), perm),
        decreases buckets.len() - i,
    {
        let x = buckets[i].clone();
        let ghost ov = buckets_view(out@);
        let mut p: usize = 0;
        while p < out.len() && out[p].bytes >= x.bytes
            invariant
                p <= out@.len(),
                ov == buckets_view(out@),
                stable_by_size_desc(input.take(i as int), ov, perm),
                forall|k: int| 0 <= k < p ==> (#[trigger] ov[k]).bytes >= x.bytes,
            decreases out.len() - p,
        {
            p = p + 1;
        }
        assert forall|k: int| p <= k < ov.len() implies (#[trigger] ov[k]).bytes < x.bytes by {
            assert(ov[p as int].bytes < x.bytes);
            if k > p {
                assert(ov[p as int].bytes >= ov[k].bytes);
            }
        }
        assert(x@ == input[i as int]);
        proof {
            lemma_insert_step(input, i as int, ov, perm, p as int);
            perm = perm.insert(p as int, i as int);
        }
        out.insert(p, x);
        assert(buckets_view(out@) =~= ov.insert(p as int, input[i as int]));
        assert(input.take(i + 1) =~= input.take(i as int + 1));
        i = i + 1;
    }
    assert(input.take(buckets@.len() as int) =~= input);
    out
}

/// The heading row of the cache section.
pub open spec fn cache_section_row() -> DetailRowView {
    route_row_view("account:cache-section"@, "section"@, "Cache"@, "local disk usage and cache buckets"@, 0)
}

/// `"<n> file(s)"`.
pub open spec fn files_text(n: nat) -> Seq<char> {
    decimal(n) + " file(s)"@
}

/// The row of one cache bucket.
pub open spec fn bucket_row(b: BucketView) -> DetailRowView {
    route_row_view(
        "account:cache-bucket:"@ + b.name,
        "cache"@,
        bucket_label(b.name),
        formatted_bytes(b.bytes) + " | "@ + files_text(b.files as nat),
        1,
    )
}

/// The rows of the cache section, given the buckets already sorted largest first.
pub open spec fn spec_cache_rows(info: CacheDirInfo, sorted: Seq<BucketView>) -> Seq<DetailRowView> {
    match info {
        CacheDirInfo::Unavailable => seq![
            cache_section_row(),
            route_row_view("account:cache-unavailable"@, "cache"@, "Cache directory"@, "not available on this platform"@, 1),
        ],
        CacheDirInfo::NotCreated { display } => seq![
            cache_section_row(),
            route_row_view("account:cache-empty"@, "cache"@, "Cache directory"@, "not created yet: "@ + display@, 1),
        ],
        CacheDirInfo::Present { total_bytes, total_files, buckets } => seq![
            cache_section_row(),
            route_row_view(
                "account:cache-total"@,
                "cache"@,
                "Total cached"@,
                formatted_bytes(total_bytes) + " across "@ + decimal(total_files as nat) + " file(s)"@,
                1,
            ),
        ] + if sorted.len() == 0 {
            seq![route_row_view("account:cache-buckets-empty"@, "cache"@, "Cache buckets"@, "empty"@, 1)]
        } else {
            crate::qt::detail::at_most(sorted, 8).map_values(|b: BucketView| bucket_row(b))
        },
    }
}

/// `rows` are the cache rows of `info`, its buckets sorted as `sorted` with
/// the arrangement `perm`.
pub open spec fn cache_rows_from(
    info: CacheDirInfo,
    rows: Seq<DetailRowView>,
    sorted: Seq<BucketView>,
    perm: Seq<int>,
) -> bool {
    &&& (info matches CacheDirInfo::Present { buckets, .. } ==> stable_by_size_desc(
        buckets_view(buckets@),
        sorted,
        perm,
    ))
    &&& rows == spec_cache_rows(info, sorted)
}

/// The rows of the cache section: a heading, then what was found of the
/// directory; for an existing one its total and its eight largest buckets.
pub fn cache_status_rows(info: &CacheDirInfo) -> (r: Vec<QtDetailRow>)
    ensures
        exists|sorted: Seq<BucketView>, perm: Seq<int>| #[trigger] cache_rows_from(*info, rows_view(r@), sorted, perm),
{
    let mut rows: Vec<QtDetailRow> = Vec::new();
    rows.push(QtDetailRow::route(
        String::from_str("account:cache-section"),
        String::from_str("section"),
        String::from_str("Cache"),
        String::from_str("local disk usage and cache buckets"),
        0,
    ));
    match info {
        CacheDirInfo::Unavailable => {
            rows.push(QtDetailRow::route(
                String::from_str("account:cache-unavailable"),
                String::from_str("cache"),
                String::from_str("Cache directory"),
                String::from_str("not available on this platform"),
                1,
            ));
            assert(rows_view(rows@) =~= spec_cache_rows(*info, Seq::empty()));
            assert(cache_rows_from(*info, rows_view(rows@), Seq::<BucketView>::empty(), Seq::<int>::empty()));
            rows
        },
        CacheDirInfo::NotCreated { display } => {
            let mut meta = String::from_str("not created yet: ");
            meta.append(display.as_str());
            rows.push(QtDetailRow::route(
                String::from_str("account:cache-empty"),
                String::from_str("cache"),
                String::from_str("Cache directory"),
                meta,
                1,
            ));
            assert(rows_view(rows@) =~= spec_cache_rows(*info, Seq::empty()));
            assert(cache_rows_from(*info, rows_view(rows@), Seq::<BucketView>::empty(), Seq::<int>::empty()));
            rows
        },
        CacheDirInfo::Present { total_bytes, total_files, buckets } => {
            let mut meta = format_bytes(*total_bytes);
            meta.append(" across ");
            meta.append(decimal_string(*total_files as u128).as_str());
            meta.append(" file(s)");
            rows.push(QtDetailRow::route(
                String::from_str("account:cache-total"),
                String::from_str("cache"),
                String::from_str("Total cached"),
                meta,
                1,
            ));
            let sorted = sort_buckets_by_size(buckets);
            let ghost sv = buckets_view(sorted@);
            let ghost perm = choose|perm: Seq<int>| stable_by_size_desc(buckets_view(buckets@), sv, perm);
            let ghost head = rows_view(rows@);
            if sorted.len() == 0 {
                rows.push(QtDetailRow::route(
                    String::from_str("account:cache-buckets-empty"),
                    String::from_str("cache"),
                    String::from_str("Cache buckets"),
                    String::from_str("empty"),
                    1,
                ));
                assert(rows_view(rows@) =~= spec_cache_rows(*info, sv));
            } else {
                let n = if sorted.len() < 8 {
                    sorted.len()
                } else {
                    8
                };
                let ghost expected = crate::qt::detail::at_most(sv, 8).map_values(|b: BucketView| bucket_row(b));
                let mut i: usize = 0;
                while i < n
                    invariant
                        n <= sorted@.len(),
                        sv == buckets_view(sorted@),
                        expected == crate::qt::detail::at_most(sv, 8).map_values(|b: BucketView| bucket_row(b)),
                        expected.len() == n,
                        i <= n,
                        rows_view(rows@) == head + expected.take(i as int),
                    decreases n - i,
                {
                    let b = &sorted[i];
                    let mut id = String::from_str("account:cache-bucket:");
                    id.append(b.name.as_str());
                    let mut meta = format_bytes(b.bytes);
                    meta.append(" | ");
                    meta.append(decimal_string(b.files as u128).as_str());
                    meta.append(" file(s)");
                    let row = QtDetailRow::route(
                        id,
                        String::from_str("cache"),
                        cache_bucket_label(b.name.as_str()),
                        meta,
                        1,
                    );
                    assert(sv[i as int] == b@);
                    assert(crate::qt::detail::at_most(sv, 8)[i as int] == sv[i as int]);
                    assert(row@.meta =~= formatted_bytes(b.bytes) + " | "@ + files_text(b.files as nat));
                    assert(row@ == expected[i as int]);
                    let ghost prev = rows@;
                    rows.push(row);
                    assert(rows_view(rows@) =~= rows_view(prev).push(expected[i as int]));
                    assert(expected.take(i + 1) =~= expected.take(i as int).push(expected[i as int]));
                    i = i + 1;
                }
                assert(expected.take(n as int) =~= expected);
                assert(rows_view(rows@) =~= spec_cache_rows(*info, sv));
            }
            assert(cache_rows_from(*info, rows_view(rows@), sv, perm));
            rows
        },
    }
}

} // verus!
