use vstd::prelude::*;

verus! {

/// A GPS fix: the feed's timestamp text together with latitude and
/// longitude. The two coordinates are carried as the raw bit patterns of
/// the 64-bit IEEE values read from the feed, so that fixes can be
/// stored and compared without floating-point arithmetic. The all-zero
/// bit pattern encodes the coordinate zero and doubles as the
/// "no data yet" default.
#[derive(Debug)]
pub struct Position {
    pub time: String,
    pub lat_bits: u64,
    pub lon_bits: u64,
}

impl View for Position {
    type V = (Seq<char>, u64, u64);

    open spec fn view(&self) -> (Seq<char>, u64, u64) {
        (self.time@, self.lat_bits, self.lon_bits)
    }
}

impl Position {
    pub fn new(time: String, lat_bits: u64, lon_bits: u64) -> (r: Position)
        ensures
            r.time@ == time@,
            r.lat_bits == lat_bits,
            r.lon_bits == lon_bits,
    {
        Position { time, lat_bits, lon_bits }
    }

    /// The fix a store holds before any real fix has arrived: an empty
    /// timestamp and both coordinates zero. Consumers must treat this
    /// value as "no data yet", not as a real location.
    pub fn default() -> (r: Position)
        ensures
            r.time@ == Seq::<char>::empty(),
            r.lat_bits == 0,
            r.lon_bits == 0,
    {
        Position { time: String::new(), lat_bits: 0, lon_bits: 0 }
    }

    /// An owned copy of this fix, equal to the original.
    pub fn duplicate(&self) -> (r: Position)
        ensures
            r == *self,
    {
        Position {
            time: self.time.clone(),
            lat_bits: self.lat_bits,
            lon_bits: self.lon_bits,
        }
    }
}

impl PartialEq for Position {
    /// Equality of fixes is structural: same timestamp text and the same
    /// coordinate bit patterns.
    fn eq(&self, other: &Self) -> (r: bool) {
        self.time == other.time && self.lat_bits == other.lat_bits
            && self.lon_bits == other.lon_bits
    }
}

impl vstd::std_specs::cmp::PartialEqSpecImpl for Position {
    open spec fn obeys_eq_spec() -> bool {
        true
    }

    open spec fn eq_spec(&self, other: &Position) -> bool {
        self@ == other@
    }
}

/// A single-slot holder for the most recent position fix. A new fix
/// supersedes the old one wholesale; a reader always sees one complete
/// fix, never a partial write. Sharing between the feed writer and
/// concurrent readers is the caller's concern: a lock around the store,
/// held only for the single read or write.
pub struct PositionStore {
    fix: Position,
}

impl PositionStore {
    /// The fix the store currently holds.
    pub closed spec fn stored(&self) -> Position {
        self.fix
    }

    /// A fresh store holding the default fix.
    pub fn new() -> (s: PositionStore)
        ensures
            s.stored().time@ == Seq::<char>::empty(),
            s.stored().lat_bits == 0,
            s.stored().lon_bits == 0,
    {
        PositionStore { fix: Position::default() }
    }

    /// Replace the stored fix with `fix`.
    pub fn set(&mut self, fix: Position)
        ensures
            final(self).stored() == fix,
    {
        self.fix = fix;
    }

    /// Read the stored fix. The result is exactly the stored value, and
    /// reading leaves the store untouched, so repeated reads without an
    /// intervening `set` all return the same fix.
    pub fn get(&self) -> (r: Position)
        ensures
            r == self.stored(),
    {
        self.fix.duplicate()
    }
}

/// Reading the store is idempotent: two reads of the same store with no
/// `set` between them yield equal fixes, since each read returns exactly
/// the stored value.
pub proof fn lemma_get_idempotent(s: &PositionStore, first: Position, second: Position)
    requires
        first == s.stored(),
        second == s.stored(),
    ensures
        first == second,
{
}

} // verus!
