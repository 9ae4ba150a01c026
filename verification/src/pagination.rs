//! Cursor pagination: resolving the caller's paging arguments into a scan, and
//! deriving the page flags from an over-fetch of one row.

use vstd::prelude::*;
use crate::errors::{AppError, Kind};

verus! {

/// The page size of a listing that names none.
pub const DEFAULT_LIMIT: i32 = 20;

/// An opaque resume position: the sort-key value of the row it was read from.
#[derive(Debug)]
pub struct Cursor(pub String);

impl Clone for Cursor {
    fn clone(&self) -> (copy: Self)
        ensures
            copy == *self,
    {
        Cursor(self.0.clone())
    }
}

impl View for Cursor {
    type V = Seq<char>;

    open spec fn view(&self) -> Seq<char> {
        self.0@
    }
}

impl Cursor {
    /// Wraps a sort-key value as a cursor.
    pub fn from(raw: String) -> (cursor: Self)
        ensures
            cursor.0 == raw,
    {
        Cursor(raw)
    }

    /// Unwraps the cursor into the sort-key value.
    pub fn into(self) -> (raw: String)
        ensures
            raw == self.0,
    {
        self.0
    }
}

/// A resolved scan: how many rows to request, in which direction, and from where.
#[derive(Debug, Clone)]
pub struct Pagination {
    /// The number of rows to request: the page size plus the sentinel row.
    pub limit: i32,
    pub forward: bool,
    pub cursor: Option<Cursor>,
}

/// A page of results with the flags that tell whether neighbours exist.
#[derive(Debug)]
pub struct Connection<T> {
    pub has_previous_page: bool,
    pub has_next_page: bool,
    pub edges: Vec<T>,
}

/// Whether the paging arguments contradict each other: two cursors, two page
/// sizes, or a cursor with the page size of the opposite direction.
pub open spec fn conflicting(
    after: Option<Seq<char>>,
    before: Option<Seq<char>>,
    first: Option<i32>,
    last: Option<i32>,
) -> bool {
    ||| after.is_some() && before.is_some()
    ||| after.is_some() && last.is_some()
    ||| before.is_some() && first.is_some()
    ||| first.is_some() && last.is_some()
}

/// The page size that the arguments ask for: `first`, else `last`, else the default.
pub open spec fn page_size(first: Option<i32>, last: Option<i32>, default_limit: i32) -> int {
    match (first, last) {
        (Some(n), _) => n as int,
        (None, Some(n)) => n as int,
        (None, None) => default_limit as int,
    }
}

/// Whether the arguments ask for a backward scan: they name `before` or `last`.
pub open spec fn scans_backward(before: Option<Seq<char>>, last: Option<i32>) -> bool {
    before.is_some() || last.is_some()
}

/// The cursor that the arguments name: `after`, else `before`.
pub open spec fn chosen_cursor(after: Option<Seq<char>>, before: Option<Seq<char>>) -> Option<
    Seq<char>,
> {
    match after {
        Some(a) => Some(a),
        None => before,
    }
}

/// The characters of an optional string.
pub open spec fn opt_view(s: Option<String>) -> Option<Seq<char>> {
    match s {
        Some(v) => Some(v@),
        None => None,
    }
}

impl Pagination {
    /// The cursor as a sequence of characters, if one was supplied.
    pub open spec fn cursor_view(self) -> Option<Seq<char>> {
        match self.cursor {
            Some(c) => Some(c@),
            None => None,
        }
    }

    /// The number of rows that a fetch of `fetched_len` rows keeps once the
    /// sentinel row is trimmed.
    pub open spec fn kept(self, fetched_len: int) -> int {
        if 0 < self.limit && self.limit <= fetched_len {
            self.limit - 1
        } else {
            fetched_len
        }
    }

    /// Whether a fetch of `fetched_len` rows returned the sentinel row.
    pub open spec fn reached_limit(self, fetched_len: int) -> bool {
        self.limit <= fetched_len
    }

    /// Resolves the paging arguments of a request.
    ///
    /// Conflicting arguments are refused as `BadRequest`. Otherwise the scan runs
    /// backward exactly when `before` or `last` is given, starts at the cursor
    /// that was given, and requests one row more than the page size.
    pub fn calc(
        after: Option<String>,
        before: Option<String>,
        first: Option<i32>,
        last: Option<i32>,
        default_limit: i32,
    ) -> (res: Result<Self, AppError>)
        requires
            !conflicting(opt_view(after), opt_view(before), first, last) ==> page_size(
                first,
                last,
                default_limit,
            ) < i32::MAX,
        ensures
            res.is_err() <==> conflicting(opt_view(after), opt_view(before), first, last),
            res matches Err(e) ==> e.kind == Kind::BadRequest && e.msg.is_none(),
            res matches Ok(p) ==> {
                &&& p.limit == page_size(first, last, default_limit) + 1
                &&& p.forward == !scans_backward(opt_view(before), last)
                &&& p.cursor_view() == chosen_cursor(opt_view(after), opt_view(before))
            },
    {
        if after.is_some() && before.is_some() {
            return Err(AppError::bad_request());
        }
        if after.is_some() && last.is_some() {
            return Err(AppError::bad_request());
        }
        if before.is_some() && first.is_some() {
            return Err(AppError::bad_request());
        }
        if first.is_some() && last.is_some() {
            return Err(AppError::bad_request());
        }
        let size: i32 = match (first, last) {
            (Some(n), _) => n,
            (None, Some(n)) => n,
            (None, None) => default_limit,
        };
        let forward = before.is_none() && last.is_none();
        let cursor = match after {
            Some(a) => Some(Cursor::from(a)),
            None => match before {
                Some(b) => Some(Cursor::from(b)),
                None => None,
            },
        };
        Ok(Pagination { limit: size + 1, forward, cursor })
    }

    /// Guesses `(has_previous, has_next)` from the number of rows fetched.
    ///
    /// In the direction of the scan a further page exists exactly when the
    /// sentinel row came back; against it, exactly when a cursor was supplied.
    pub fn guess_has_prev_next(&self, fetched_len: usize) -> (flags: (bool, bool))
        ensures
            self.forward ==> flags == (
                self.cursor.is_some(),
                self.reached_limit(fetched_len as int),
            ),
            !self.forward ==> flags == (
                self.reached_limit(fetched_len as int),
                self.cursor.is_some(),
            ),
    {
        let cursor_specified = self.cursor.is_some();
        let reach_limit = self.limit <= 0 || self.limit as usize <= fetched_len;
        if self.forward {
            (cursor_specified, reach_limit)
        } else {
            (reach_limit, cursor_specified)
        }
    }

    /// Builds the page from the rows of a scan: sets the flags and trims the
    /// sentinel row, keeping the rows in the order in which they were fetched.
    pub fn connection<T>(&self, edges: Vec<T>) -> (page: Connection<T>)
        ensures
            (page.has_previous_page, page.has_next_page) == if self.forward {
                (self.cursor.is_some(), self.reached_limit(edges@.len() as int))
            } else {
                (self.reached_limit(edges@.len() as int), self.cursor.is_some())
            },
            page.edges@ == edges@.take(self.kept(edges@.len() as int)),
    {
        let (has_prev, has_next) = self.guess_has_prev_next(edges.len());
        let mut edges = edges;
        let ghost fetched = edges@;
        if self.limit > 0 && self.limit as usize <= edges.len() {
            edges.truncate((self.limit - 1) as usize);
        }
        assert(edges@ =~= fetched.take(self.kept(fetched.len() as int)));
        Connection { has_previous_page: has_prev, has_next_page: has_next, edges }
    }
}

} // verus!
