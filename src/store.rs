use vstd::prelude::*;

verus! {

/// Seconds in the window during which a mapping still redirects: 24 hours.
pub const VALIDITY_WINDOW_SECS: u64 = 86400;

/// One stored association of an original URL with its short code.
pub struct Mapping {
    pub original_url: String,
    pub short_code: String,
    /// Seconds since the Unix epoch at which the row was inserted.
    pub creation_time: u64,
}

/// The mathematical value of a [`Mapping`].
pub ghost struct MappingModel {
    pub original_url: Seq<char>,
    pub short_code: Seq<char>,
    pub creation_time: nat,
}

impl View for Mapping {
    type V = MappingModel;

    open spec fn view(&self) -> MappingModel {
        MappingModel {
            original_url: self.original_url@,
            short_code: self.short_code@,
            creation_time: self.creation_time as nat,
        }
    }
}

/// A mapping created at `creation` still redirects at time `now`:
/// `creation >= now - 24h`.
pub open spec fn is_live(creation: nat, now: nat) -> bool {
    now <= creation + VALIDITY_WINDOW_SECS
}

/// The short code of the first row whose original URL is exactly `url`,
/// expired or not.
pub open spec fn code_for_url(rows: Seq<MappingModel>, url: Seq<char>) -> Option<Seq<char>>
    decreases rows.len(),
{
    if rows.len() == 0 {
        None
    } else if rows[0].original_url == url {
        Some(rows[0].short_code)
    } else {
        code_for_url(rows.drop_first(), url)
    }
}

/// The original URL of the first row whose short code is exactly `code` and
/// which is live at `now`.
pub open spec fn live_url_for_code(rows: Seq<MappingModel>, code: Seq<char>, now: nat) -> Option<
    Seq<char>,
>
    decreases rows.len(),
{
    if rows.len() == 0 {
        None
    } else if rows[0].short_code == code && is_live(rows[0].creation_time, now) {
        Some(rows[0].original_url)
    } else {
        live_url_for_code(rows.drop_first(), code, now)
    }
}

/// Some row carries the short code `code`.
pub open spec fn has_code(rows: Seq<MappingModel>, code: Seq<char>) -> bool {
    exists|i: int| 0 <= i < rows.len() && #[trigger] rows[i].short_code == code
}

/// No two rows carry the same short code.
pub open spec fn codes_unique(rows: Seq<MappingModel>) -> bool {
    forall|i: int, j: int|
        0 <= i < rows.len() && 0 <= j < rows.len() && #[trigger] rows[i].short_code
            == #[trigger] rows[j].short_code ==> i == j
}

/// Whether a mapping created at `creation` still redirects at `now`.
pub fn is_valid(creation: u64, now: u64) -> (r: bool)
    ensures
        r == is_live(creation as nat, now as nat),
{
    if now <= creation {
        true
    } else {
        now - creation <= VALIDITY_WINDOW_SECS
    }
}

/// The table of mappings. Rows are only ever appended.
pub struct UrlStore {
    rows: Vec<Mapping>,
}

impl View for UrlStore {
    type V = Seq<MappingModel>;

    closed spec fn view(&self) -> Seq<MappingModel> {
        self.rows@.map_values(|m: Mapping| m@)
    }
}

proof fn lemma_tail_step<T>(s: Seq<T>, i: int)
    requires
        0 <= i < s.len(),
    ensures
        s.subrange(i, s.len() as int).drop_first() =~= s.subrange(i + 1, s.len() as int),
        s.subrange(i, s.len() as int)[0] == s[i],
        s.subrange(i, s.len() as int).len() > 0,
{
}

impl UrlStore {
    /// An empty table.
    pub fn new() -> (r: UrlStore)
        ensures
            r@ == Seq::<MappingModel>::empty(),
    {
        let r = UrlStore { rows: Vec::new() };
        assert(r@ =~= Seq::<MappingModel>::empty());
        r
    }

    /// A table holding `rows`, in that order.
    pub fn from_rows(rows: Vec<Mapping>) -> (r: UrlStore)
        ensures
            r@ == rows@.map_values(|m: Mapping| m@),
    {
        UrlStore { rows }
    }

    /// The number of rows.
    pub fn len(&self) -> (r: usize)
        ensures
            r == self@.len(),
    {
        self.rows.len()
    }

    /// The short code of the first row whose original URL is exactly `url`;
    /// expired rows count too.
    pub fn find_code_by_original_url(&self, url: &String) -> (r: Option<String>)
        ensures
            r matches Some(c) ==> code_for_url(self@, url@) == Some(c@),
            r is None ==> code_for_url(self@, url@) is None,
    {
        let n = self.rows.len();
        let mut i: usize = 0;
        assert(self@.subrange(0, n as int) =~= self@);
        while i < n
            invariant
                n == self.rows.len(),
                0 <= i <= n,
                code_for_url(self@, url@) == code_for_url(
                    self@.subrange(i as int, n as int),
                    url@,
                ),
            decreases n - i,
        {
            proof {
                lemma_tail_step(self@, i as int);
            }
            if self.rows[i].original_url == *url {
                return Some(self.rows[i].short_code.clone());
            }
            i = i + 1;
        }
        None
    }

    /// The original URL of the first row with short code `code` that is live
    /// at `now`, or `None` when there is no such row.
    pub fn find_valid_original_url(&self, code: &String, now: u64) -> (r: Option<String>)
        ensures
            r matches Some(u) ==> live_url_for_code(self@, code@, now as nat) == Some(u@),
            r is None ==> live_url_for_code(self@, code@, now as nat) is None,
    {
        let n = self.rows.len();
        let mut i: usize = 0;
        assert(self@.subrange(0, n as int) =~= self@);
        while i < n
            invariant
                n == self.rows.len(),
                0 <= i <= n,
                live_url_for_code(self@, code@, now as nat) == live_url_for_code(
                    self@.subrange(i as int, n as int),
                    code@,
                    now as nat,
                ),
            decreases n - i,
        {
            proof {
                lemma_tail_step(self@, i as int);
            }
            if self.rows[i].short_code == *code && is_valid(
                self.rows[i].creation_time,
                now,
            ) {
                return Some(self.rows[i].original_url.clone());
            }
            i = i + 1;
        }
        None
    }

    /// Appends the row `(original_url, short_code, now)`.
    pub fn insert_mapping(&mut self, original_url: &String, short_code: &String, now: u64)
        ensures
            final(self)@ == old(self)@.push(
                MappingModel {
                    original_url: original_url@,
                    short_code: short_code@,
                    creation_time: now as nat,
                },
            ),
    {
        let m = Mapping {
            original_url: original_url.clone(),
            short_code: short_code.clone(),
            creation_time: now,
        };
        self.rows.push(m);
        assert(self@ =~= old(self)@.push(m@));
    }
}

} // verus!
