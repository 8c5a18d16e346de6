use vstd::hash_map::StringHashMap;
use vstd::prelude::*;

use crate::proto::client::Seat;

verus! {

/// The views of the elements of a sequence, in order.
pub open spec fn views<T: View>(items: Seq<T>) -> Seq<T::V> {
    Seq::new(items.len(), |i: int| items[i]@)
}

/// The view of an optional value.
pub open spec fn opt_view<T: View>(item: Option<T>) -> Option<T::V> {
    match item {
        Some(value) => Some(value@),
        None => None,
    }
}

pub broadcast proof fn lemma_views_push<T: View>(items: Seq<T>, item: T)
    ensures
        #[trigger] views(items.push(item)) == views(items).push(item@),
{
    assert(views(items.push(item)) =~= views(items).push(item@));
}

pub broadcast proof fn lemma_views_empty<T: View>()
    ensures
        #[trigger] views(Seq::<T>::empty()) == Seq::<T::V>::empty(),
{
    assert(views(Seq::<T>::empty()) =~= Seq::<T::V>::empty());
}

/// One optional value per seat.
#[verifier::ext_equal]
pub struct SeatMap<T> {
    pub unspecified: Option<T>,
    pub east: Option<T>,
    pub south: Option<T>,
    pub west: Option<T>,
    pub north: Option<T>,
}

impl<T> SeatMap<T> {
    /// The value held for `seat`.
    #[verifier::opaque]
    pub open spec fn at(self, seat: Seat) -> Option<T> {
        match seat {
            Seat::Unspecified => self.unspecified,
            Seat::East => self.east,
            Seat::South => self.south,
            Seat::West => self.west,
            Seat::North => self.north,
        }
    }

    /// The same map with the value of `seat` replaced.
    #[verifier::opaque]
    pub open spec fn with(self, seat: Seat, value: Option<T>) -> SeatMap<T> {
        match seat {
            Seat::Unspecified => SeatMap { unspecified: value, ..self },
            Seat::East => SeatMap { east: value, ..self },
            Seat::South => SeatMap { south: value, ..self },
            Seat::West => SeatMap { west: value, ..self },
            Seat::North => SeatMap { north: value, ..self },
        }
    }

    /// How many seats hold a value.
    pub open spec fn filled(self) -> nat {
        (if self.unspecified is Some {
            1nat
        } else {
            0nat
        }) + (if self.east is Some {
            1nat
        } else {
            0nat
        }) + (if self.south is Some {
            1nat
        } else {
            0nat
        }) + (if self.west is Some {
            1nat
        } else {
            0nat
        }) + (if self.north is Some {
            1nat
        } else {
            0nat
        })
    }

    /// The map without values.
    pub open spec fn empty_map() -> SeatMap<T> {
        SeatMap { unspecified: None, east: None, south: None, west: None, north: None }
    }

    pub fn new() -> (r: SeatMap<T>)
        ensures
            r == SeatMap::<T>::empty_map(),
    {
        SeatMap { unspecified: None, east: None, south: None, west: None, north: None }
    }

    /// How many seats hold a value.
    pub fn len(&self) -> (r: usize)
        ensures
            r == self.filled(),
    {
        let mut count: usize = 0;
        if self.unspecified.is_some() {
            count = count + 1;
        }
        if self.east.is_some() {
            count = count + 1;
        }
        if self.south.is_some() {
            count = count + 1;
        }
        if self.west.is_some() {
            count = count + 1;
        }
        if self.north.is_some() {
            count = count + 1;
        }
        count
    }

    pub fn get(&self, seat: Seat) -> (r: Option<&T>)
        ensures
            (match r {
                Some(value) => self.at(seat) == Some(*value),
                None => self.at(seat) is None,
            }),
    {
        reveal(SeatMap::at);
        reveal(SeatMap::with);
        match seat {
            Seat::Unspecified => self.unspecified.as_ref(),
            Seat::East => self.east.as_ref(),
            Seat::South => self.south.as_ref(),
            Seat::West => self.west.as_ref(),
            Seat::North => self.north.as_ref(),
        }
    }

    pub fn get_mut(&mut self, seat: Seat) -> (r: Option<&mut T>)
        ensures
            (match r {
                Some(value) => old(self).at(seat) == Some(*value) && *final(self) == old(self).with(seat, Some(*final(value))),
                None => old(self).at(seat) is None && *final(self) == *old(self),
            }),
    {
        reveal(SeatMap::at);
        reveal(SeatMap::with);
        match seat {
            Seat::Unspecified => self.unspecified.as_mut(),
            Seat::East => self.east.as_mut(),
            Seat::South => self.south.as_mut(),
            Seat::West => self.west.as_mut(),
            Seat::North => self.north.as_mut(),
        }
    }

    pub fn set(&mut self, seat: Seat, value: Option<T>)
        ensures
            *final(self) == old(self).with(seat, value),
    {
        reveal(SeatMap::at);
        reveal(SeatMap::with);
        match seat {
            Seat::Unspecified => self.unspecified = value,
            Seat::East => self.east = value,
            Seat::South => self.south = value,
            Seat::West => self.west = value,
            Seat::North => self.north = value,
        }
    }
}

impl<T: View> View for SeatMap<T> {
    type V = SeatMap<T::V>;

    open spec fn view(&self) -> SeatMap<T::V> {
        SeatMap {
            unspecified: opt_view(self.unspecified),
            east: opt_view(self.east),
            south: opt_view(self.south),
            west: opt_view(self.west),
            north: opt_view(self.north),
        }
    }
}

/// Reading a seat after writing one.
pub broadcast proof fn lemma_seat_map_at_with<T>(map: SeatMap<T>, seat: Seat, value: Option<T>, other: Seat)
    ensures
        (#[trigger] map.with(seat, value).at(other)) == (if seat == other {
            value
        } else {
            map.at(other)
        }),
{
    reveal(SeatMap::at);
    reveal(SeatMap::with);
}

/// Writing what a seat holds already changes nothing.
pub broadcast proof fn lemma_seat_map_with_same<T>(map: SeatMap<T>, seat: Seat, value: Option<T>)
    ensures
        map.at(seat) == value ==> (#[trigger] map.with(seat, value)) == map,
{
    reveal(SeatMap::at);
    reveal(SeatMap::with);
}

/// Of two values written to one seat the later one stays.
pub broadcast proof fn lemma_seat_map_with_twice<T>(
    map: SeatMap<T>,
    seat: Seat,
    first: Option<T>,
    second: Option<T>,
)
    ensures
        (#[trigger] map.with(seat, first).with(seat, second)) == map.with(seat, second),
{
    reveal(SeatMap::with);
}

/// The view of a map has the views of its values.
pub broadcast proof fn lemma_seat_map_view_at<T: View>(map: SeatMap<T>, seat: Seat)
    ensures
        (#[trigger] map@.at(seat)) == opt_view(map.at(seat)),
{
    reveal(SeatMap::at);
}

/// Writing a seat writes the view of the value.
pub broadcast proof fn lemma_seat_map_view_with<T: View>(map: SeatMap<T>, seat: Seat, value: Option<T>)
    ensures
        (#[trigger] map.with(seat, value)@) == map@.with(seat, opt_view(value)),
{
    reveal(SeatMap::with);
}

/// The empty map holds nothing.
pub broadcast proof fn lemma_seat_map_empty<T>(seat: Seat)
    ensures
        (#[trigger] SeatMap::<T>::empty_map().at(seat)) is None,
{
    reveal(SeatMap::at);
}

pub broadcast group group_seat_map {
    lemma_seat_map_at_with,
    lemma_seat_map_with_same,
    lemma_seat_map_with_twice,
    lemma_seat_map_view_at,
    lemma_seat_map_view_with,
    lemma_seat_map_empty,
}

/// A map from text to values.
#[verifier::reject_recursive_types(V)]
pub struct StrMap<V> {
    pub entries: StringHashMap<V>,
}

impl<V: View> View for StrMap<V> {
    type V = Map<Seq<char>, V::V>;

    open spec fn view(&self) -> Map<Seq<char>, V::V> {
        Map::new(|key: Seq<char>| self.entries@.contains_key(key), |key: Seq<char>| self.entries@[key]@)
    }
}

impl<V: View> StrMap<V> {
    pub fn new() -> (r: StrMap<V>)
        ensures
            r@ == Map::<Seq<char>, V::V>::empty(),
    {
        let r = StrMap { entries: StringHashMap::new() };
        assert(r@ =~= Map::<Seq<char>, V::V>::empty());
        r
    }

    pub fn contains_key(&self, key: &str) -> (r: bool)
        ensures
            r == self@.contains_key(key@),
    {
        self.entries.contains_key(key)
    }

    pub fn get(&self, key: &str) -> (r: Option<&V>)
        ensures
            match r {
                Some(value) => self@.contains_key(key@) && value@ == self@[key@],
                None => !self@.contains_key(key@),
            },
    {
        self.entries.get(key)
    }

    pub fn insert(&mut self, key: String, value: V)
        ensures
            final(self)@ == old(self)@.insert(key@, value@),
    {
        let ghost before = self@;
        self.entries.insert(key, value);
        assert(self@ =~= before.insert(key@, value@));
    }

    pub fn remove(&mut self, key: &str)
        ensures
            final(self)@ == old(self)@.remove(key@),
    {
        let ghost before = self@;
        self.entries.remove(key);
        assert(self@ =~= before.remove(key@));
    }

    pub fn clear(&mut self)
        ensures
            final(self)@ == Map::<Seq<char>, V::V>::empty(),
    {
        self.entries.clear();
        assert(self@ =~= Map::<Seq<char>, V::V>::empty());
    }
}

} // verus!
