//! The decisions of an image that is fetched from the network: which image
//! is wanted, when to ask for it, and whether data that arrives is shown.
//! The widget toolkit starts the timers and delivers the data; it reports
//! each event here and performs what comes back.

use vstd::prelude::*;
use crate::text::str_equal;

verus! {

/// How long to wait before asking for an image when the web API names no
/// delay: 250 ms, in nanoseconds.
pub const DEFAULT_REQUEST_DELAY_NANOS: u128 = 250_000_000;

/// The state of a remote image: where its image is, the request waiting to
/// be sent, the timer that will send it, and whether the fetched image is
/// shown in place of the placeholder.
pub struct RemoteImage {
    pub location: Option<String>,
    pub pending_request: Option<String>,
    pub request_timer: Option<u64>,
    pub showing_image: bool,
}

/// A remote image, as a view.
pub struct RemoteImageView {
    pub location: Option<Seq<char>>,
    pub pending_request: Option<Seq<char>>,
    pub request_timer: Option<u64>,
    pub showing_image: bool,
}

/// The text of an optional string.
pub open spec fn opt_view(o: Option<String>) -> Option<Seq<char>> {
    match o {
        Some(s) => Some(s@),
        None => None,
    }
}

impl View for RemoteImage {
    type V = RemoteImageView;

    open spec fn view(&self) -> RemoteImageView {
        RemoteImageView {
            location: opt_view(self.location),
            pending_request: opt_view(self.pending_request),
            request_timer: self.request_timer,
            showing_image: self.showing_image,
        }
    }
}

/// What a timer's firing leads to.
pub enum TimerOutcome {
    /// Another timer: the event goes on to the child.
    NotOurs,
    /// The web API is rate limited: start a timer of this delay.
    Rearm { delay_nanos: u128 },
    /// Ask for the image at this location.
    Request { location: String },
    /// Nothing more to do.
    Done,
}

/// What a change of the data leads to.
pub struct UpdateOutcome {
    /// The shown child changed.
    pub children_changed: bool,
    /// Start a request timer.
    pub start_timer: bool,
}

/// The delay before a request: the web API's when it names one, else 250 ms.
pub open spec fn spec_request_delay(rate_limit_delay: Option<u128>) -> u128 {
    match rate_limit_delay {
        Some(d) => d,
        None => DEFAULT_REQUEST_DELAY_NANOS,
    }
}

/// The image after data for `location` arrived: shown when it is for the
/// image wanted.
pub open spec fn spec_provide(s: RemoteImageView, location: Seq<char>) -> RemoteImageView {
    if s.location == Some(location) {
        RemoteImageView { showing_image: true, ..s }
    } else {
        s
    }
}

/// The image after it was added to the window, its location now `location`.
pub open spec fn spec_added(s: RemoteImageView, location: Option<Seq<char>>) -> RemoteImageView {
    RemoteImageView { location, pending_request: location, showing_image: false, ..s }
}

/// The image after its data changed to name `location`.
pub open spec fn spec_update(s: RemoteImageView, location: Option<Seq<char>>) -> RemoteImageView {
    if location != s.location {
        RemoteImageView {
            location,
            pending_request: location,
            showing_image: false,
            request_timer: if location is Some {
                s.request_timer
            } else {
                None
            },
        }
    } else {
        s
    }
}

/// Whether a change of the data to `location` starts a request timer.
pub open spec fn spec_update_starts_timer(s: RemoteImageView, location: Option<Seq<char>>) -> bool {
    let after = spec_update(s, location);
    after.pending_request is Some && (location != s.location || s.request_timer is None)
}

/// The image after timer `token` fired, with the web API's rate-limit delay.
pub open spec fn spec_timer(s: RemoteImageView, token: u64, rate_limit_delay: Option<u128>) -> RemoteImageView {
    if s.request_timer != Some(token) {
        s
    } else if rate_limit_delay is Some {
        RemoteImageView { request_timer: None, ..s }
    } else {
        RemoteImageView { request_timer: None, pending_request: None, ..s }
    }
}

/// What firing timer `token` leads to, as a view: `Some` of the location to
/// request, or `None`.
pub open spec fn spec_timer_request(s: RemoteImageView, token: u64, rate_limit_delay: Option<u128>) -> Option<
    Seq<char>,
> {
    if s.request_timer == Some(token) && rate_limit_delay is None && s.pending_request is Some
        && s.pending_request == s.location {
        s.pending_request
    } else {
        None
    }
}

/// Whether two optional locations are the same.
fn same_location(a: &Option<String>, b: &Option<String>) -> (r: bool)
    ensures
        r == (opt_view(*a) == opt_view(*b)),
{
    match (a, b) {
        (Some(x), Some(y)) => str_equal(x.as_str(), y.as_str()),
        (None, None) => true,
        _ => false,
    }
}

/// A copy of an optional location.
fn copy_location(a: &Option<String>) -> (r: Option<String>)
    ensures
        opt_view(r) == opt_view(*a),
{
    match a {
        Some(x) => Some(x.clone()),
        None => None,
    }
}

/// The delay before a request: the web API's when it names one, else 250 ms.
pub fn request_delay_nanos(rate_limit_delay: Option<u128>) -> (r: u128)
    ensures
        r == spec_request_delay(rate_limit_delay),
{
    match rate_limit_delay {
        Some(d) => d,
        None => DEFAULT_REQUEST_DELAY_NANOS,
    }
}

impl RemoteImage {
    /// An image with no location yet, showing its placeholder.
    pub fn new() -> (r: Self)
        ensures
            r@ == (RemoteImageView {
                location: None,
                pending_request: None,
                request_timer: None,
                showing_image: false,
            }),
    {
        RemoteImage { location: None, pending_request: None, request_timer: None, showing_image: false }
    }

    /// Data for `location` arrived: it is shown when it is for the image
    /// wanted; gives whether it was. The event goes no further either way.
    pub fn provide_data(&mut self, location: &str) -> (r: bool)
        ensures
            r == (old(self)@.location == Some(location@)),
            final(self)@ == spec_provide(old(self)@, location@),
    {
        let wanted = match &self.location {
            Some(l) => str_equal(l.as_str(), location),
            None => false,
        };
        if wanted {
            self.showing_image = true;
        }
        wanted
    }

    /// Timer `token` fired. A timer of another is not ours. Ours ends; when
    /// the web API is rate limited a new timer is due; otherwise the waiting
    /// request is sent when it is still for the image wanted.
    pub fn timer_fired(&mut self, token: u64, rate_limit_delay: Option<u128>) -> (r: TimerOutcome)
        ensures
            final(self)@ == spec_timer(old(self)@, token, rate_limit_delay),
            old(self)@.request_timer != Some(token) ==> r is NotOurs,
            old(self)@.request_timer == Some(token) && rate_limit_delay is Some ==> r == (TimerOutcome::Rearm {
                delay_nanos: rate_limit_delay->0,
            }),
            old(self)@.request_timer == Some(token) && rate_limit_delay is None ==> match spec_timer_request(
                old(self)@,
                token,
                rate_limit_delay,
            ) {
                Some(l) => r matches TimerOutcome::Request { location } && location@ == l,
                None => r is Done,
            },
    {
        if !(self.request_timer == Some(token)) {
            return TimerOutcome::NotOurs;
        }
        self.request_timer = None;
        match rate_limit_delay {
            Some(d) => TimerOutcome::Rearm { delay_nanos: d },
            None => {
                let pending = self.pending_request.take();
                match pending {
                    Some(l) => {
                        let wanted = match &self.location {
                            Some(cur) => str_equal(l.as_str(), cur.as_str()),
                            None => false,
                        };
                        if wanted {
                            TimerOutcome::Request { location: l }
                        } else {
                            TimerOutcome::Done
                        }
                    },
                    None => TimerOutcome::Done,
                }
            },
        }
    }

    /// The image was added to the window with its data naming `location`:
    /// the placeholder shows and a request waits for it; gives whether to
    /// start a request timer.
    pub fn widget_added(&mut self, location: Option<String>) -> (r: bool)
        ensures
            final(self)@ == spec_added(old(self)@, opt_view(location)),
            r == location is Some,
    {
        let pending = copy_location(&location);
        self.showing_image = false;
        self.location = location;
        self.pending_request = pending;
        self.pending_request.is_some()
    }

    /// The data changed to name `location`. A new location shows the
    /// placeholder and waits to ask for its image; without a location the
    /// timer is dropped. A request that waits without a timer gets one.
    pub fn update(&mut self, location: Option<String>) -> (r: UpdateOutcome)
        ensures
            final(self)@ == spec_update(old(self)@, opt_view(location)),
            r.children_changed == (opt_view(location) != old(self)@.location),
            r.start_timer == spec_update_starts_timer(old(self)@, opt_view(location)),
    {
        let changed = !same_location(&location, &self.location);
        if changed {
            let pending = copy_location(&location);
            self.showing_image = false;
            self.location = location;
            self.pending_request = pending;
            if self.pending_request.is_none() {
                self.request_timer = None;
            }
        }
        let start_timer = self.pending_request.is_some() && (changed || self.request_timer.is_none());
        UpdateOutcome { children_changed: changed, start_timer }
    }

    /// A request timer `token` was started.
    pub fn timer_started(&mut self, token: u64)
        ensures
            final(self)@ == (RemoteImageView { request_timer: Some(token), ..old(self)@ }),
    {
        self.request_timer = Some(token);
    }
}

/// A request is only ever sent for the image currently wanted.
pub proof fn law_request_is_for_wanted_image(s: RemoteImageView, token: u64, rate_limit_delay: Option<u128>)
    ensures
        spec_timer_request(s, token, rate_limit_delay) matches Some(l) ==> s.location == Some(l),
{
}

/// Once the data names a new location, data that arrives for any other
/// location is not shown.
pub proof fn law_stale_data_not_shown(s: RemoteImageView, location: Option<Seq<char>>, arrived: Seq<char>)
    requires
        location != s.location,
        location != Some(arrived),
    ensures
        !spec_provide(spec_update(s, location), arrived).showing_image,
{
}

/// A timer sends at most one request: once it has fired, firing the same
/// token again changes nothing and sends nothing.
pub proof fn law_timer_requests_once(
    s: RemoteImageView,
    token: u64,
    first_delay: Option<u128>,
    second_delay: Option<u128>,
)
    requires
        s.request_timer == Some(token),
    ensures
        spec_timer_request(spec_timer(s, token, first_delay), token, second_delay) is None,
        spec_timer(spec_timer(s, token, first_delay), token, second_delay) == spec_timer(s, token, first_delay),
{
}

/// Data that names the same location again changes nothing: an image that
/// is shown stays shown.
pub proof fn law_same_location_keeps_image(s: RemoteImageView)
    ensures
        spec_update(s, s.location) == s,
        !spec_update_starts_timer(s, s.location) || s.request_timer is None,
{
}

} // verus!
