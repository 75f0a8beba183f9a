//! Imagery tile proxy: the canonical storage key of a Sentinel-2 tile, the
//! request checks of the public tile route, and the read-through cache protocol
//! (storage hit, single-flight double check, one upstream fetch, persist).
//!
//! The protocol is a small state machine: the caller performs each requested
//! action against the object store or the upstream service and reports what
//! came back, until the machine finishes with the tile (or with none).

use vstd::prelude::*;
use crate::error::AppError;
use crate::text::{push_str, push_decimal, decimal, digit_char, digits_value, is_digit, strip_suffix,
    without_suffix, parse_u32, parse_u32_spec};

verus! {

/// Content type served (and stored) for Sentinel-2 imagery tiles.
pub const TILE_CONTENT_TYPE: &'static str = "image/jpeg";

/// Cache lifetime of a served tile: one week, immutable.
pub const TILE_CACHE_CONTROL: &'static str = "public, max-age=604800, immutable";

/// `sentinel2/{z}/{x}/{y}.jpg`.
pub open spec fn tile_key(z: u32, x: u32, y: u32) -> Seq<char> {
    "sentinel2/"@ + decimal(z as nat) + "/"@ + decimal(x as nat) + "/"@ + decimal(y as nat)
        + ".jpg"@
}

/// The canonical storage key of a Sentinel-2 tile.
pub fn sentinel2_key(z: u32, x: u32, y: u32) -> (key: String)
    ensures key@ == tile_key(z, x, y),
{
    let mut key = String::new();
    push_str(&mut key, "sentinel2/");
    push_decimal(&mut key, z as u64);
    push_str(&mut key, "/");
    push_decimal(&mut key, x as u64);
    push_str(&mut key, "/");
    push_decimal(&mut key, y as u64);
    push_str(&mut key, ".jpg");
    assert(key@ =~= tile_key(z, x, y));
    key
}

// ---------------------------------------------------------------------------
// Request checks of the public tile route
// ---------------------------------------------------------------------------

/// The tile row named by the last path segment: the segment without a
/// trailing `.jpg` (when present), read as an unsigned decimal.
pub open spec fn tile_row(segment: Seq<char>) -> Option<u32> {
    match without_suffix(segment, ".jpg"@) {
        Some(rest) => parse_u32_spec(rest),
        None => parse_u32_spec(segment),
    }
}

/// Which tile a public request asks for, once its token has been accepted:
/// zoom levels above `max_zoom` are refused before the row is even read.
pub fn tile_request(z: u32, x: u32, y_segment: &str, max_zoom: u32) -> (r: Result<TileRequest, AppError>)
    ensures
        z > max_zoom ==> (r matches Err(e) && e matches AppError::NotFound(m)
            && m@ == "tile zoom out of range"@),
        z <= max_zoom && tile_row(y_segment@) is None ==> (r matches Err(e)
            && e matches AppError::BadRequest(m) && m@ == "invalid tile coordinate"@),
        z <= max_zoom && tile_row(y_segment@) is Some ==> r == Ok::<TileRequest, AppError>(
            TileRequest { z, x, y: tile_row(y_segment@)->0, max_zoom }),
{
    if z > max_zoom {
        return Err(AppError::not_found("tile zoom out of range"));
    }
    let row = match strip_suffix(y_segment, ".jpg") {
        Some(rest) => parse_u32(rest),
        None => parse_u32(y_segment),
    };
    match row {
        Some(y) => Ok(TileRequest { z, x, y, max_zoom }),
        None => Err(AppError::bad_request("invalid tile coordinate")),
    }
}

/// The answer to a served tile: its bytes, or 404 when neither the cache nor
/// the upstream has it.
pub fn tile_outcome(tile: Option<Vec<u8>>) -> (r: Result<Vec<u8>, AppError>)
    ensures
        tile matches Some(b) ==> (r matches Ok(out) && out@ == b@),
        tile is None ==> (r matches Err(e) && e matches AppError::NotFound(m)
            && m@ == "tile not available"@),
{
    match tile {
        Some(bytes) => Ok(bytes),
        None => Err(AppError::not_found("tile not available")),
    }
}

// ---------------------------------------------------------------------------
// Read-through protocol
// ---------------------------------------------------------------------------

/// A tile request: coordinates and the configured zoom ceiling.
#[derive(Clone, Copy, PartialEq, Eq, Structural, Debug)]
pub struct TileRequest {
    pub z: u32,
    pub x: u32,
    pub y: u32,
    pub max_zoom: u32,
}

/// Where a request stands in the read-through protocol.
#[derive(Debug)]
pub enum TilePhase {
    /// Nothing done yet.
    Start,
    /// Waiting for the first (ungated) storage read.
    CacheRead,
    /// Waiting for the storage re-read made under the tile's single-flight gate.
    GatedRead,
    /// Waiting for the upstream fetch.
    Fetching,
    /// Waiting for the fetched bytes to be persisted.
    Storing { bytes: Vec<u8> },
    /// Done; nothing more is asked.
    Finished,
}

/// What the caller reports back after performing the last action.
#[derive(Debug)]
pub enum TileEvent {
    /// The request begins.
    Begin,
    /// A storage read returned this object (or none).
    Read(Option<Vec<u8>>),
    /// The upstream returned this tile (or none).
    Fetched(Option<Vec<u8>>),
    /// The storage write finished.
    Stored,
}

/// What the machine asks the caller to do next.
#[derive(Debug)]
pub enum TileAction {
    /// Read the object under `key` without taking the single-flight gate.
    Get { key: String },
    /// Take the single-flight gate of `key`, then read the object under it.
    LockAndGet { key: String },
    /// Fetch tile `z/x/y` from the upstream imagery service.
    Fetch { z: u32, x: u32, y: u32 },
    /// Persist `bytes` under `key` with the given content type.
    Put { key: String, content_type: String, bytes: Vec<u8> },
    /// Answer the request with this tile (or none), releasing any gate.
    Finish { tile: Option<Vec<u8>> },
}

/// A request together with its protocol state.
pub struct TileProxy {
    pub request: TileRequest,
    pub phase: TilePhase,
}

/// Whether `event` is the report the phase waits for.
pub open spec fn awaits(phase: TilePhase, event: TileEvent) -> bool {
    match phase {
        TilePhase::Start => event is Begin,
        TilePhase::CacheRead => event is Read,
        TilePhase::GatedRead => event is Read,
        TilePhase::Fetching => event is Fetched,
        TilePhase::Storing { .. } => event is Stored,
        TilePhase::Finished => false,
    }
}

/// An action that answers with `tile` (as bytes).
pub open spec fn finishes_with(a: TileAction, tile: Option<Seq<u8>>) -> bool {
    a matches TileAction::Finish { tile: t } && match (t, tile) {
        (Some(b), Some(c)) => b@ == c,
        (None, None) => true,
        _ => false,
    }
}

/// One protocol step: from `phase`, on `event`, the machine moves to `next`
/// and asks for `action`.
pub open spec fn tile_step(
    req: TileRequest,
    phase: TilePhase,
    event: TileEvent,
    next: TilePhase,
    action: TileAction,
) -> bool {
    let key = tile_key(req.z, req.x, req.y);
    match phase {
        TilePhase::Start => if req.z > req.max_zoom {
            next is Finished && finishes_with(action, None)
        } else {
            next is CacheRead && (action matches TileAction::Get { key: k } && k@ == key)
        },
        TilePhase::CacheRead => match event {
            TileEvent::Read(Some(b)) => next is Finished && finishes_with(action, Some(b@)),
            _ => next is GatedRead && (action matches TileAction::LockAndGet { key: k } && k@ == key),
        },
        TilePhase::GatedRead => match event {
            TileEvent::Read(Some(b)) => next is Finished && finishes_with(action, Some(b@)),
            _ => next is Fetching && action == (TileAction::Fetch { z: req.z, x: req.x, y: req.y }),
        },
        TilePhase::Fetching => match event {
            TileEvent::Fetched(Some(b)) => {
                &&& next matches TilePhase::Storing { bytes } && bytes@ == b@
                &&& action matches TileAction::Put { key: k, content_type: ct, bytes: pb }
                &&& k@ == key
                &&& ct@ == TILE_CONTENT_TYPE@
                &&& pb@ == b@
            },
            _ => next is Finished && finishes_with(action, None),
        },
        TilePhase::Storing { bytes } => next is Finished && finishes_with(action, Some(bytes@)),
        TilePhase::Finished => false,
    }
}

impl TileProxy {
    /// A request that has not started yet.
    pub fn new(request: TileRequest) -> (p: TileProxy)
        ensures p.request == request, p.phase is Start,
    {
        TileProxy { request, phase: TilePhase::Start }
    }

    /// Whether the machine waits for `event` (the check a caller makes before
    /// `advance`).
    pub fn accepts(&self, event: &TileEvent) -> (b: bool)
        ensures b == awaits(self.phase, *event),
    {
        match (&self.phase, event) {
            (TilePhase::Start, TileEvent::Begin) => true,
            (TilePhase::CacheRead, TileEvent::Read(_)) => true,
            (TilePhase::GatedRead, TileEvent::Read(_)) => true,
            (TilePhase::Fetching, TileEvent::Fetched(_)) => true,
            (TilePhase::Storing { .. }, TileEvent::Stored) => true,
            _ => false,
        }
    }

    /// Whether the request is answered.
    pub fn is_finished(&self) -> (b: bool)
        ensures b == (self.phase is Finished),
    {
        match self.phase {
            TilePhase::Finished => true,
            _ => false,
        }
    }

    /// Take one protocol step on the caller's report.
    pub fn advance(&mut self, event: TileEvent) -> (action: TileAction)
        requires awaits(old(self).phase, event),
        ensures
            final(self).request == old(self).request,
            tile_step(old(self).request, old(self).phase, event, final(self).phase, action),
    {
        let req = self.request;
        let mut phase = TilePhase::Finished;
        std::mem::swap(&mut phase, &mut self.phase);
        match phase {
            TilePhase::Start => {
                if req.z > req.max_zoom {
                    self.phase = TilePhase::Finished;
                    TileAction::Finish { tile: None }
                } else {
                    self.phase = TilePhase::CacheRead;
                    TileAction::Get { key: sentinel2_key(req.z, req.x, req.y) }
                }
            },
            TilePhase::CacheRead => match event {
                TileEvent::Read(Some(bytes)) => {
                    self.phase = TilePhase::Finished;
                    TileAction::Finish { tile: Some(bytes) }
                },
                _ => {
                    self.phase = TilePhase::GatedRead;
                    TileAction::LockAndGet { key: sentinel2_key(req.z, req.x, req.y) }
                },
            },
            TilePhase::GatedRead => match event {
                TileEvent::Read(Some(bytes)) => {
                    self.phase = TilePhase::Finished;
                    TileAction::Finish { tile: Some(bytes) }
                },
                _ => {
                    self.phase = TilePhase::Fetching;
                    TileAction::Fetch { z: req.z, x: req.x, y: req.y }
                },
            },
            TilePhase::Fetching => match event {
                TileEvent::Fetched(Some(bytes)) => {
                    let kept = bytes.clone();
                    assert(kept@ =~= bytes@);
                    self.phase = TilePhase::Storing { bytes: kept };
                    TileAction::Put {
                        key: sentinel2_key(req.z, req.x, req.y),
                        content_type: TILE_CONTENT_TYPE.to_owned(),
                        bytes,
                    }
                },
                _ => {
                    self.phase = TilePhase::Finished;
                    TileAction::Finish { tile: None }
                },
            },
            TilePhase::Storing { bytes } => {
                self.phase = TilePhase::Finished;
                TileAction::Finish { tile: Some(bytes) }
            },
            TilePhase::Finished => {
                self.phase = TilePhase::Finished;
                TileAction::Finish { tile: None }
            },
        }
    }
}

// ---------------------------------------------------------------------------
// Keys and rows
// ---------------------------------------------------------------------------

proof fn digit_char_value(d: nat)
    requires d < 10,
    ensures is_digit(digit_char(d)), digit_char(d) as int - '0' as int == d,
{
}

proof fn decimal_digits(n: nat)
    ensures
        decimal(n).len() >= 1,
        forall|i: int| 0 <= i < decimal(n).len() ==> is_digit(#[trigger] decimal(n)[i]),
        digits_value(decimal(n)) == n,
    decreases n,
{
    if n >= 10 {
        decimal_digits(n / 10);
        digit_char_value(n % 10);
        let d = decimal(n / 10);
        assert(decimal(n) == d.push(digit_char(n % 10)));
        assert(decimal(n).drop_last() =~= d);
        assert(decimal(n).last() == digit_char(n % 10));
        assert(digits_value(decimal(n)) == digits_value(d) * 10 + (n % 10));
        assert((n / 10) * 10 + n % 10 == n) by (nonlinear_arith);
        assert forall|i: int| 0 <= i < decimal(n).len() implies is_digit(#[trigger] decimal(n)[i]) by {
            if i < d.len() {
                assert(decimal(n)[i] == d[i]);
            }
        }
    } else {
        digit_char_value(n);
        assert(decimal(n) =~= seq![digit_char(n)]);
        assert(decimal(n).drop_last() =~= Seq::<char>::empty());
        assert(decimal(n).last() == digit_char(n));
        assert(digits_value(decimal(n)) == digits_value(Seq::<char>::empty()) * 10 + n);
    }
}

proof fn digits_before_slash(a: Seq<char>, r: Seq<char>, b: Seq<char>, t: Seq<char>)
    requires
        forall|i: int| 0 <= i < a.len() ==> is_digit(#[trigger] a[i]),
        forall|i: int| 0 <= i < b.len() ==> is_digit(#[trigger] b[i]),
        a + "/"@ + r == b + "/"@ + t,
    ensures a == b, r == t,
{
    reveal_strlit("/");
    let x = a + "/"@ + r;
    let y = b + "/"@ + t;
    if a.len() < b.len() {
        assert(x[a.len() as int] == '/');
        assert(y[a.len() as int] == b[a.len() as int]);
    } else if b.len() < a.len() {
        assert(y[b.len() as int] == '/');
        assert(x[b.len() as int] == a[b.len() as int]);
    }
    assert(a =~= x.subrange(0, a.len() as int));
    assert(b =~= y.subrange(0, b.len() as int));
    assert(r =~= x.subrange(a.len() as int + 1, x.len() as int));
    assert(t =~= y.subrange(b.len() as int + 1, y.len() as int));
}

/// What follows `sentinel2/` in a tile key.
spec fn key_rest(z: u32, x: u32, y: u32) -> Seq<char> {
    decimal(z as nat) + "/"@ + (decimal(x as nat) + "/"@ + (decimal(y as nat) + ".jpg"@))
}

proof fn key_is_prefix_and_rest(z: u32, x: u32, y: u32)
    ensures
        tile_key(z, x, y) == "sentinel2/"@ + key_rest(z, x, y),
        key_rest(z, x, y) == tile_key(z, x, y).subrange("sentinel2/"@.len() as int, tile_key(z, x, y).len() as int),
{
    assert(tile_key(z, x, y) =~= "sentinel2/"@ + key_rest(z, x, y));
    let k = tile_key(z, x, y);
    assert(key_rest(z, x, y) =~= k.subrange("sentinel2/"@.len() as int, k.len() as int));
}

proof fn strip_jpg(a: Seq<char>, b: Seq<char>)
    requires a + ".jpg"@ == b + ".jpg"@,
    ensures a == b,
{
    reveal_strlit(".jpg");
    let c1 = a + ".jpg"@;
    let c2 = b + ".jpg"@;
    assert(a =~= c1.subrange(0, c1.len() - 4));
    assert(b =~= c2.subrange(0, c2.len() - 4));
}

/// Storage keys identify tiles: two tiles share a key only if they are the
/// same tile, so a cached object is never served for another tile.
pub proof fn tile_keys_identify_tiles(z1: u32, x1: u32, y1: u32, z2: u32, x2: u32, y2: u32)
    requires tile_key(z1, x1, y1) == tile_key(z2, x2, y2),
    ensures z1 == z2, x1 == x2, y1 == y2,
{
    key_is_prefix_and_rest(z1, x1, y1);
    key_is_prefix_and_rest(z2, x2, y2);
    decimal_digits(z1 as nat);
    decimal_digits(x1 as nat);
    decimal_digits(y1 as nat);
    decimal_digits(z2 as nat);
    decimal_digits(x2 as nat);
    decimal_digits(y2 as nat);
    digits_before_slash(decimal(z1 as nat), decimal(x1 as nat) + "/"@ + (decimal(y1 as nat) + ".jpg"@),
        decimal(z2 as nat), decimal(x2 as nat) + "/"@ + (decimal(y2 as nat) + ".jpg"@));
    digits_before_slash(decimal(x1 as nat), decimal(y1 as nat) + ".jpg"@,
        decimal(x2 as nat), decimal(y2 as nat) + ".jpg"@);
    strip_jpg(decimal(y1 as nat), decimal(y2 as nat));
}

/// The last path segment of a tile URL, `{y}.jpg`, reads back as row `y`.
pub proof fn tile_row_reads_key_segment(y: u32)
    ensures tile_row(decimal(y as nat) + ".jpg"@) == Some(y),
{
    reveal_strlit(".jpg");
    decimal_digits(y as nat);
    let d = decimal(y as nat);
    let s = d + ".jpg"@;
    assert(s.subrange(s.len() - 4, s.len() as int) =~= ".jpg"@);
    assert(s.subrange(0, s.len() - 4) =~= d);
    assert(is_digit(d[0]));
    assert(d[0] != '+');
}

// ---------------------------------------------------------------------------
// Laws of the protocol
// ---------------------------------------------------------------------------

/// A run of the protocol: it starts at `Start`, and step `i` goes from
/// `phases[i]` on the awaited report `events[i]` to `phases[i + 1]`, asking
/// for `actions[i]`.
pub open spec fn tile_run(
    req: TileRequest,
    phases: Seq<TilePhase>,
    events: Seq<TileEvent>,
    actions: Seq<TileAction>,
) -> bool {
    &&& phases.len() == events.len() + 1
    &&& actions.len() == events.len()
    &&& phases[0] is Start
    &&& forall|i: int| 0 <= i < events.len() ==> #[trigger] awaits(phases[i], events[i])
        && tile_step(req, phases[i], events[i], phases[i + 1], actions[i])
}

/// How far a phase is from the end of the protocol.
pub open spec fn phase_rank(phase: TilePhase) -> nat {
    match phase {
        TilePhase::Start => 5,
        TilePhase::CacheRead => 4,
        TilePhase::GatedRead => 3,
        TilePhase::Fetching => 2,
        TilePhase::Storing { .. } => 1,
        TilePhase::Finished => 0,
    }
}

proof fn step_moves_forward(req: TileRequest, phase: TilePhase, event: TileEvent, next: TilePhase, action: TileAction)
    requires tile_step(req, phase, event, next, action),
    ensures phase_rank(next) < phase_rank(phase),
{
}

proof fn run_moves_forward(req: TileRequest, phases: Seq<TilePhase>, events: Seq<TileEvent>, actions: Seq<TileAction>, i: int, j: int)
    requires tile_run(req, phases, events, actions), 0 <= i < j < phases.len(),
    ensures phase_rank(phases[j]) < phase_rank(phases[i]),
    decreases j - i,
{
    assert(awaits(phases[j - 1], events[j - 1]));
    step_moves_forward(req, phases[j - 1], events[j - 1], phases[j], actions[j - 1]);
    if i < j - 1 {
        run_moves_forward(req, phases, events, actions, i, j - 1);
    }
}

/// Tiles above the zoom ceiling are refused before any storage or upstream
/// access: a run over the ceiling answers "no tile" at once and never reads,
/// fetches or persists anything.
pub proof fn over_ceiling_touches_nothing(
    req: TileRequest,
    phases: Seq<TilePhase>,
    events: Seq<TileEvent>,
    actions: Seq<TileAction>,
)
    requires tile_run(req, phases, events, actions), req.z > req.max_zoom,
    ensures
        actions.len() <= 1,
        forall|i: int| 0 <= i < actions.len() ==> finishes_with(#[trigger] actions[i], None),
{
    if events.len() > 1 {
        assert(awaits(phases[0], events[0]));
        assert(awaits(phases[1], events[1]));
    }
    if events.len() == 1 {
        assert(awaits(phases[0], events[0]));
    }
}

/// Every storage access, upstream fetch and write of a run concerns the
/// requested tile: reads and writes use its canonical key, the fetch asks for
/// its coordinates, and a write stores exactly the fetched bytes as JPEG.
pub proof fn run_touches_only_its_tile(
    req: TileRequest,
    phases: Seq<TilePhase>,
    events: Seq<TileEvent>,
    actions: Seq<TileAction>,
    i: int,
)
    requires tile_run(req, phases, events, actions), 0 <= i < actions.len(),
    ensures
        actions[i] matches TileAction::Get { key } ==> key@ == tile_key(req.z, req.x, req.y),
        actions[i] matches TileAction::LockAndGet { key } ==> key@ == tile_key(req.z, req.x, req.y),
        actions[i] is Fetch ==> actions[i] == (TileAction::Fetch { z: req.z, x: req.x, y: req.y }),
        actions[i] matches TileAction::Put { key, content_type, bytes } ==> {
            &&& key@ == tile_key(req.z, req.x, req.y)
            &&& content_type@ == TILE_CONTENT_TYPE@
            &&& events[i] matches TileEvent::Fetched(Some(b)) && b@ == bytes@
        },
{
    assert(awaits(phases[i], events[i]));
}

/// A run asks for each kind of access at most once: one ungated read, one
/// gated read, one upstream fetch and one write per request.
pub proof fn run_accesses_at_most_once(
    req: TileRequest,
    phases: Seq<TilePhase>,
    events: Seq<TileEvent>,
    actions: Seq<TileAction>,
    i: int,
    j: int,
)
    requires tile_run(req, phases, events, actions), 0 <= i < j < actions.len(),
    ensures
        !(actions[i] is Get && actions[j] is Get),
        !(actions[i] is LockAndGet && actions[j] is LockAndGet),
        !(actions[i] is Fetch && actions[j] is Fetch),
        !(actions[i] is Put && actions[j] is Put),
{
    assert(awaits(phases[i], events[i]));
    assert(awaits(phases[j], events[j]));
    run_moves_forward(req, phases, events, actions, i + 1, j + 1);
}

/// The answer ends the run: once the machine answers, it awaits nothing more.
pub proof fn finish_ends_run(
    req: TileRequest,
    phases: Seq<TilePhase>,
    events: Seq<TileEvent>,
    actions: Seq<TileAction>,
    i: int,
)
    requires tile_run(req, phases, events, actions), 0 <= i < actions.len(), actions[i] is Finish,
    ensures i == actions.len() - 1,
{
    assert(awaits(phases[i], events[i]));
    if i + 1 < events.len() {
        assert(awaits(phases[i + 1], events[i + 1]));
    }
}

/// A storage hit is served as stored, and a fetched tile is served as fetched
/// once it has been written: the answer of a run is the bytes it last read or
/// fetched.
pub proof fn answer_is_what_was_read_or_fetched(
    req: TileRequest,
    phases: Seq<TilePhase>,
    events: Seq<TileEvent>,
    actions: Seq<TileAction>,
    i: int,
)
    requires tile_run(req, phases, events, actions), 0 <= i < actions.len(),
    ensures
        events[i] matches TileEvent::Read(Some(b)) ==> finishes_with(actions[i], Some(b@)),
        events[i] is Stored ==> i >= 1,
        events[i] is Stored ==> (events[i - 1] matches TileEvent::Fetched(Some(b))
            && finishes_with(actions[i], Some(b@))),
{
    assert(awaits(phases[i], events[i]));
    if events[i] is Stored {
        if i == 0 {
            assert(phases[0] is Start);
        } else {
            assert(awaits(phases[i - 1], events[i - 1]));
        }
    }
}

} // verus!
