//! What a session says of its track: its name and length, the camera sets
//! with their cameras, and the HUD pages.

use vstd::prelude::*;
use crate::accd_error::ProtocolError;
use crate::accd_seq::{first_where, lemma_first_where, lemma_first_where_unique, views};
use crate::accd_utils::{read_string, read_strings, take_string, take_strings};
use crate::accd_wire::{
    has_bytes,
    i32_at,
    lemma_take_many_stays_none,
    reads,
    take_many,
    ByteCursor,
};

verus! {

/// A named group of cameras, the cameras in the order of the message.
#[derive(Debug)]
pub struct CameraSet {
    pub name: String,
    pub cameras: Vec<String>,
}

/// The mathematical value of a [`CameraSet`].
pub struct CameraSetView {
    pub name: Seq<char>,
    pub cameras: Seq<Seq<char>>,
}

impl View for CameraSet {
    type V = CameraSetView;

    open spec fn view(&self) -> CameraSetView {
        CameraSetView { name: self.name@, cameras: views(self.cameras@) }
    }
}

/// The first place in `sets` that holds a set called `name`.
pub open spec fn set_position(sets: Seq<CameraSetView>, name: Seq<char>) -> Option<int> {
    first_where(sets, |set: CameraSetView| set.name == name)
}

/// Whether no two sets have one name.
pub open spec fn distinct_names(sets: Seq<CameraSetView>) -> bool {
    forall|i: int, j: int|
        0 <= i < j < sets.len() ==> (#[trigger] sets[i]).name != (#[trigger] sets[j]).name
}

/// `sets` with `set` put in: in the place of the set of that name where
/// there is one, behind the last where there is none.
pub open spec fn put_camera_set(sets: Seq<CameraSetView>, set: CameraSetView) -> Seq<
    CameraSetView,
> {
    match set_position(sets, set.name) {
        Some(i) => sets.update(i, set),
        None => sets.push(set),
    }
}

/// The camera sets that a message leaves behind when its sets are put in
/// one after the other: of two sets with one name the later stays.
pub open spec fn merge_camera_sets(wire: Seq<CameraSetView>) -> Seq<CameraSetView>
    decreases wire.len(),
{
    if wire.len() == 0 {
        Seq::empty()
    } else {
        put_camera_set(merge_camera_sets(wire.drop_last()), wire.last())
    }
}

/// The cameras by the name of their set.
pub open spec fn camera_map(sets: Seq<CameraSetView>) -> Map<Seq<char>, Seq<Seq<char>>> {
    Map::new(
        |name: Seq<char>| set_position(sets, name) is Some,
        |name: Seq<char>| sets[set_position(sets, name).unwrap()].cameras,
    )
}

/// Putting a set in keeps the names distinct.
pub proof fn lemma_put_keeps_names_distinct(sets: Seq<CameraSetView>, set: CameraSetView)
    requires
        distinct_names(sets),
    ensures
        distinct_names(put_camera_set(sets, set)),
{
    lemma_first_where(sets, |other: CameraSetView| other.name == set.name);
    let after = put_camera_set(sets, set);
    match set_position(sets, set.name) {
        Some(k) => {
            assert forall|i: int, j: int| 0 <= i < j < after.len() implies (#[trigger] after[i]).name
                != (#[trigger] after[j]).name by {
                assert(after[i].name == sets[i].name);
                assert(after[j].name == sets[j].name);
            }
        },
        None => {
            assert forall|i: int, j: int| 0 <= i < j < after.len() implies (#[trigger] after[i]).name
                != (#[trigger] after[j]).name by {
                if j < sets.len() {
                    assert(after[i] == sets[i]);
                    assert(after[j] == sets[j]);
                } else {
                    assert(after[i] == sets[i]);
                }
            }
        },
    }
}

/// The sets that a message leaves behind have distinct names.
pub proof fn lemma_merged_names_distinct(wire: Seq<CameraSetView>)
    ensures
        distinct_names(merge_camera_sets(wire)),
    decreases wire.len(),
{
    if wire.len() > 0 {
        lemma_merged_names_distinct(wire.drop_last());
        lemma_put_keeps_names_distinct(merge_camera_sets(wire.drop_last()), wire.last());
    }
}

/// Putting a set in is an insertion into the map from names to cameras.
pub proof fn lemma_put_is_insert(sets: Seq<CameraSetView>, set: CameraSetView)
    ensures
        camera_map(put_camera_set(sets, set)) == camera_map(sets).insert(set.name, set.cameras),
{
    let after = put_camera_set(sets, set);
    lemma_first_where(sets, |other: CameraSetView| other.name == set.name);
    assert forall|name: Seq<char>|
        (#[trigger] camera_map(after).dom().contains(name)) == camera_map(sets).insert(
            set.name,
            set.cameras,
        ).dom().contains(name) && (camera_map(after).dom().contains(name) ==> camera_map(
            after,
        )[name] == camera_map(sets).insert(set.name, set.cameras)[name]) by {
        let hit = |other: CameraSetView| other.name == name;
        lemma_first_where(sets, hit);
        lemma_first_where(after, hit);
        match set_position(sets, set.name) {
            Some(k) => {
                if name == set.name {
                    assert(after[k].name == name);
                    assert forall|j: int| 0 <= j < k implies !hit(#[trigger] after[j]) by {
                        assert(after[j] == sets[j]);
                    }
                    lemma_first_where_unique(after, hit, k);
                } else {
                    match set_position(sets, name) {
                        Some(m) => {
                            assert(m != k);
                            assert(after[m] == sets[m]);
                            assert forall|j: int| 0 <= j < m implies !hit(#[trigger] after[j]) by {
                                if j != k {
                                    assert(after[j] == sets[j]);
                                }
                            }
                            lemma_first_where_unique(after, hit, m);
                        },
                        None => {
                            if set_position(after, name) is Some {
                                let m = set_position(after, name).unwrap();
                                if m != k {
                                    assert(after[m] == sets[m]);
                                    assert(hit(sets[m]));
                                }
                            }
                        },
                    }
                }
            },
            None => {
                let n = sets.len() as int;
                if name == set.name {
                    assert(after[n] == set);
                    assert forall|j: int| 0 <= j < n implies !hit(#[trigger] after[j]) by {
                        assert(after[j] == sets[j]);
                    }
                    lemma_first_where_unique(after, hit, n);
                } else {
                    match set_position(sets, name) {
                        Some(m) => {
                            assert(after[m] == sets[m]);
                            assert forall|j: int| 0 <= j < m implies !hit(#[trigger] after[j]) by {
                                assert(after[j] == sets[j]);
                            }
                            lemma_first_where_unique(after, hit, m);
                        },
                        None => {
                            if set_position(after, name) is Some {
                                let m = set_position(after, name).unwrap();
                                if m < n {
                                    assert(after[m] == sets[m]);
                                    assert(hit(sets[m]));
                                }
                            }
                        },
                    }
                }
            },
        }
    }
    assert(camera_map(after) =~= camera_map(sets).insert(set.name, set.cameras));
}

/// The track of a session.
#[derive(Debug)]
pub struct ACCDTrackData {
    pub track_name: String,
    pub track_id: i32,
    pub track_meters: i32,
    pub camera_sets: Vec<CameraSet>,
    pub hud_pages: Vec<String>,
}

/// The mathematical value of an [`ACCDTrackData`].
pub struct TrackDataView {
    pub track_name: Seq<char>,
    pub track_id: i32,
    pub track_meters: i32,
    pub camera_sets: Seq<CameraSetView>,
    pub hud_pages: Seq<Seq<char>>,
}

impl View for ACCDTrackData {
    type V = TrackDataView;

    open spec fn view(&self) -> TrackDataView {
        TrackDataView {
            track_name: self.track_name@,
            track_id: self.track_id,
            track_meters: self.track_meters,
            camera_sets: views(self.camera_sets@),
            hud_pages: views(self.hud_pages@),
        }
    }
}

/// The track data that stands for "not known".
pub open spec fn default_track_data() -> TrackDataView {
    TrackDataView {
        track_name: Seq::empty(),
        track_id: -1i32,
        track_meters: -1i32,
        camera_sets: Seq::empty(),
        hud_pages: Seq::empty(),
    }
}

/// The camera set at `at` and the offset behind it: its name, a count byte
/// and that many camera names.
pub open spec fn take_camera_set(s: Seq<u8>, at: int) -> Option<(CameraSetView, int)> {
    let name = take_string(s, at);
    let count_at = name.unwrap().1;
    let cameras = take_strings(s, count_at + 1, s[count_at] as nat);
    if name is Some && has_bytes(s, count_at, 1) && cameras is Some {
        Some(
            (
                CameraSetView { name: name.unwrap().0, cameras: cameras.unwrap().0 },
                cameras.unwrap().1,
            ),
        )
    } else {
        None
    }
}

/// `n` camera sets in a row from `at` on, as the message holds them.
pub open spec fn take_camera_sets(s: Seq<u8>, at: int, n: nat) -> Option<
    (Seq<CameraSetView>, int),
> {
    take_many(|s: Seq<u8>, p: int| take_camera_set(s, p), s, at, n)
}

/// The track data at `at` and the offset behind it: the track's name, id
/// and length in metres, a count byte and that many camera sets, a count
/// byte and that many HUD page names. The camera sets are merged by name.
pub open spec fn take_track_data(s: Seq<u8>, at: int) -> Option<(TrackDataView, int)> {
    let name = take_string(s, at);
    let p = name.unwrap().1;
    let sets = take_camera_sets(s, p + 9, s[p + 8] as nat);
    let q = sets.unwrap().1;
    let pages = take_strings(s, q + 1, s[q] as nat);
    if name is Some && has_bytes(s, p, 9) && sets is Some && has_bytes(s, q, 1) && pages is Some {
        Some(
            (
                TrackDataView {
                    track_name: name.unwrap().0,
                    track_id: i32_at(s, p),
                    track_meters: i32_at(s, p + 4),
                    camera_sets: merge_camera_sets(sets.unwrap().0),
                    hud_pages: pages.unwrap().0,
                },
                pages.unwrap().1,
            ),
        )
    } else {
        None
    }
}

impl CameraSet {
    /// Decodes a camera set at the cursor.
    pub fn new(cur: &mut ByteCursor) -> (r: Result<CameraSet, ProtocolError>)
        ensures
            reads(*old(cur), *final(cur), r, take_camera_set(old(cur).data@, old(cur).pos as int)),
    {
        let mut c = *cur;
        let name = read_string(&mut c)?;
        let count: u8 = c.read_u8()?;
        let cameras = read_strings(&mut c, count)?;
        *cur = c;
        Ok(CameraSet { name, cameras })
    }

    /// The place of the set called `name` in `sets`.
    pub fn find(sets: &Vec<CameraSet>, name: &String) -> (place: Option<usize>)
        ensures
            match place {
                Some(i) => set_position(views(sets@), name@) == Some(i as int),
                None => set_position(views(sets@), name@) is None,
            },
    {
        let ghost hit = |set: CameraSetView| set.name == name@;
        let mut i: usize = 0;
        while i < sets.len()
            invariant
                i <= sets.len(),
                hit == |set: CameraSetView| set.name == name@,
                forall|j: int| 0 <= j < i ==> !hit(#[trigger] views(sets@)[j]),
            decreases sets.len() - i,
        {
            if sets[i].name == *name {
                proof {
                    lemma_first_where_unique(views(sets@), hit, i as int);
                }
                return Some(i);
            }
            i = i + 1;
        }
        proof {
            lemma_first_where(views(sets@), hit);
        }
        None
    }

    /// Puts `set` into `sets`: in the place of the set of that name where
    /// there is one, behind the last where there is none.
    pub fn put(sets: &mut Vec<CameraSet>, set: CameraSet)
        ensures
            views(final(sets)@) == put_camera_set(views(old(sets)@), set@),
    {
        match CameraSet::find(sets, &set.name) {
            Some(i) => {
                sets[i] = set;
            },
            None => {
                sets.push(set);
            },
        }
        assert(views(sets@) =~= put_camera_set(views(old(sets)@), set@));
    }

    /// Decodes `count` camera sets in a row at the cursor and merges them
    /// by name.
    pub fn read_all(cur: &mut ByteCursor, count: u8) -> (r: Result<Vec<CameraSet>, ProtocolError>)
        ensures
            final(cur).data == old(cur).data,
            match take_camera_sets(old(cur).data@, old(cur).pos as int, count as nat) {
                Some((wire, next)) => r matches Ok(sets) && views(sets@) == merge_camera_sets(wire)
                    && final(cur).pos == next,
                None => r == Err::<Vec<CameraSet>, ProtocolError>(ProtocolError::MalformedMessage)
                    && final(cur).pos == old(cur).pos,
            },
    {
        let mut c = *cur;
        let ghost s = cur.data@;
        let ghost at = cur.pos as int;
        let ghost mut wire: Seq<CameraSetView> = Seq::empty();
        let mut sets: Vec<CameraSet> = Vec::new();
        let mut i: u8 = 0;
        assert(views(sets@) =~= merge_camera_sets(wire));
        while i < count
            invariant
                c.data == cur.data,
                s == cur.data@,
                at == cur.pos,
                *cur == *old(cur),
                i <= count,
                take_camera_sets(s, at, i as nat) == Some((wire, c.pos as int)),
                views(sets@) == merge_camera_sets(wire),
            decreases count - i,
        {
            match CameraSet::new(&mut c) {
                Ok(set) => {
                    proof {
                        assert(wire.push(set@).drop_last() =~= wire);
                        wire = wire.push(set@);
                    }
                    CameraSet::put(&mut sets, set);
                },
                Err(e) => {
                    proof {
                        lemma_take_many_stays_none(
                            |s: Seq<u8>, p: int| take_camera_set(s, p),
                            s,
                            at,
                            (i + 1) as nat,
                            count as nat,
                        );
                    }
                    return Err(e);
                },
            }
            i = i + 1;
        }
        *cur = c;
        Ok(sets)
    }
}

impl Clone for CameraSet {
    fn clone(&self) -> (copy: Self)
        ensures
            copy@ == self@,
    {
        let cameras = self.cameras.clone();
        assert(views(cameras@) =~= views(self.cameras@));
        CameraSet { name: self.name.clone(), cameras }
    }
}

impl ACCDTrackData {
    /// Decodes track data at the cursor.
    pub fn new(cur: &mut ByteCursor) -> (r: Result<ACCDTrackData, ProtocolError>)
        ensures
            reads(*old(cur), *final(cur), r, take_track_data(old(cur).data@, old(cur).pos as int)),
            r matches Ok(track) ==> track.well_formed(),
    {
        let mut c = *cur;
        let track_name = read_string(&mut c)?;
        let track_id: i32 = c.read_i32()?;
        let track_meters: i32 = c.read_i32()?;
        let camera_set_count: u8 = c.read_u8()?;
        let ghost sets_at = c.pos as int;
        let camera_sets = CameraSet::read_all(&mut c, camera_set_count)?;
        let hud_pages_count: u8 = c.read_u8()?;
        let hud_pages = read_strings(&mut c, hud_pages_count)?;
        proof {
            lemma_merged_names_distinct(
                take_camera_sets(cur.data@, sets_at, camera_set_count as nat).unwrap().0,
            );
        }
        *cur = c;
        Ok(ACCDTrackData { track_name, track_id, track_meters, camera_sets, hud_pages })
    }

    /// Whether no two camera sets have one name.
    pub open spec fn well_formed(&self) -> bool {
        distinct_names(self@.camera_sets)
    }

    /// The cameras of the set called `name`, if the track has such a set.
    pub fn cameras_of(&self, name: &String) -> (cameras: Option<&Vec<String>>)
        ensures
            match cameras {
                Some(list) => camera_map(self@.camera_sets).dom().contains(name@) && views(list@)
                    == camera_map(self@.camera_sets)[name@],
                None => !camera_map(self@.camera_sets).dom().contains(name@),
            },
    {
        match CameraSet::find(&self.camera_sets, name) {
            Some(i) => Some(&self.camera_sets[i].cameras),
            None => None,
        }
    }
}

impl Clone for ACCDTrackData {
    fn clone(&self) -> (copy: Self)
        ensures
            copy@ == self@,
    {
        let camera_sets = self.camera_sets.clone();
        assert(views(camera_sets@) =~= views(self.camera_sets@));
        let hud_pages = self.hud_pages.clone();
        assert(views(hud_pages@) =~= views(self.hud_pages@));
        ACCDTrackData {
            track_name: self.track_name.clone(),
            track_id: self.track_id,
            track_meters: self.track_meters,
            camera_sets,
            hud_pages,
        }
    }
}

impl Default for ACCDTrackData {
    fn default() -> (track: Self)
        ensures
            track@ == default_track_data(),
            track.well_formed(),
    {
        let track = ACCDTrackData {
            track_name: String::new(),
            track_id: -1,
            track_meters: -1,
            camera_sets: Vec::new(),
            hud_pages: Vec::new(),
        };
        assert(track@.camera_sets =~= Seq::empty());
        assert(track@.hud_pages =~= Seq::empty());
        track
    }
}

} // verus!
