//! The room editor: which room is being edited, the live areas to choose
//! from and the chosen one, and whether an update or a broadcast keeps the
//! room from changing.

use crate::bili_api::{Area, LiveStatus, RoomInfo, SubArea};
use crate::text::{decimal, decimal_string};
use vstd::prelude::*;

verus! {

/// What starting a broadcast needs from the editor.
#[derive(Debug, Clone)]
pub struct StartLiveRequest {
    pub room_id: u64,
    pub title: String,
    pub area_id: u64,
}

/// Why the editor cannot give its room or area.
#[derive(Debug, Clone, Copy, PartialEq, Eq, Structural)]
pub enum EditorError {
    /// An update or a broadcast is in progress.
    Busy,
    /// The room is not known yet, or could not be found.
    RoomNotReady,
    /// The area list has not arrived yet.
    AreasNotReady,
    /// No area is chosen, or the list could not be loaded.
    NoAreaSelected,
}

/// The text shown for an editor error.
pub open spec fn editor_error_text(e: EditorError) -> Seq<char> {
    match e {
        EditorError::Busy => "房间信息正在更新"@,
        EditorError::RoomNotReady => "房间信息尚未就绪"@,
        EditorError::AreasNotReady => "分区列表尚未就绪"@,
        EditorError::NoAreaSelected => "请选择分区"@,
    }
}

impl EditorError {
    /// The text shown for this error.
    pub fn message(&self) -> (text: String)
        ensures
            text@ == editor_error_text(*self),
    {
        match self {
            EditorError::Busy => String::from_str("房间信息正在更新"),
            EditorError::RoomNotReady => String::from_str("房间信息尚未就绪"),
            EditorError::AreasNotReady => String::from_str("分区列表尚未就绪"),
            EditorError::NoAreaSelected => String::from_str("请选择分区"),
        }
    }
}

/// How far the lookup of the account's room has come.
#[derive(Debug, Clone, Copy, PartialEq, Eq, Structural)]
pub enum RoomState {
    Loading,
    LoadingDetails,
    Ready(u64),
    Failed,
}

/// The chosen area: a top-level area and one of its sub-areas.
#[derive(Debug, Clone, Copy, PartialEq, Eq, Structural)]
pub struct AreaSelection {
    pub parent_id: u64,
    pub area_id: u64,
}

/// The list of live areas and the chosen one.
#[derive(Debug)]
pub enum AreaState {
    Loading,
    Ready { areas: Vec<Area>, selection: Option<AreaSelection> },
    Failed,
}

/// Whether a room update is under way.
#[derive(Debug, Clone, Copy, PartialEq, Eq, Structural)]
pub enum UpdateState {
    Idle,
    Updating,
}

/// The entries and the highlighted row of an area drop-down.
#[derive(Debug)]
pub struct AreaMenu {
    pub names: Vec<String>,
    pub selected: Option<usize>,
}

/// What the view applies once the room is known.
#[derive(Debug)]
pub struct RoomLoaded {
    /// The current title of the room.
    pub title: String,
    /// The row of the room's area in the top-level menu and the sub-area
    /// menu that goes with it, when the room's area is in the list.
    pub area_menu: Option<(usize, AreaMenu)>,
    /// The room is on the air already.
    pub live_restored: bool,
}

/// What the view does on an update request.
#[derive(Debug)]
pub enum UpdateDecision {
    /// An update or a broadcast is in progress: nothing happens.
    Ignored,
    /// The update cannot be sent; the error is shown.
    Rejected(EditorError),
    /// Send the update: the title when asked for, the area when asked for.
    Launch { room_id: u64, title: Option<String>, area_id: Option<u64> },
}

/// The index of the first element of `s` that satisfies `p`.
pub open spec fn first_index<A>(s: Seq<A>, p: spec_fn(A) -> bool) -> Option<int>
    decreases s.len(),
{
    if s.len() == 0 {
        None
    } else if p(s[0]) {
        Some(0)
    } else {
        match first_index(s.drop_first(), p) {
            Some(i) => Some(i + 1),
            None => None,
        }
    }
}

pub proof fn lemma_first_index_is<A>(s: Seq<A>, p: spec_fn(A) -> bool, i: int)
    requires
        0 <= i < s.len(),
        p(s[i]),
        forall|j: int| 0 <= j < i ==> !p(#[trigger] s[j]),
    ensures
        first_index(s, p) == Some(i),
    decreases s.len(),
{
    if i > 0 {
        assert forall|j: int| 0 <= j < i - 1 implies !p(#[trigger] s.drop_first()[j]) by {
            assert(s.drop_first()[j] == s[j + 1]);
        }
        lemma_first_index_is(s.drop_first(), p, i - 1);
        assert(!p(s[0]));
    }
}

pub proof fn lemma_first_index_none<A>(s: Seq<A>, p: spec_fn(A) -> bool)
    requires
        forall|j: int| 0 <= j < s.len() ==> !p(#[trigger] s[j]),
    ensures
        first_index(s, p) is None,
    decreases s.len(),
{
    if s.len() > 0 {
        assert forall|j: int| 0 <= j < s.len() - 1 implies !p(#[trigger] s.drop_first()[j]) by {
            assert(s.drop_first()[j] == s[j + 1]);
        }
        lemma_first_index_none(s.drop_first(), p);
        assert(!p(s[0]));
    }
}

pub proof fn lemma_first_index_found<A>(s: Seq<A>, p: spec_fn(A) -> bool)
    ensures
        first_index(s, p) matches Some(i) ==> 0 <= i < s.len() && p(s[i]),
    decreases s.len(),
{
    if s.len() > 0 && !p(s[0]) {
        lemma_first_index_found(s.drop_first(), p);
    }
}

/// Areas called `name`.
pub open spec fn area_named(name: Seq<char>) -> spec_fn(Area) -> bool {
    |a: Area| a.name@ == name
}

/// Areas with id `id`.
pub open spec fn area_with_id(id: u64) -> spec_fn(Area) -> bool {
    |a: Area| a.id == id
}

/// Sub-areas called `name`.
pub open spec fn sub_area_named(name: Seq<char>) -> spec_fn(SubArea) -> bool {
    |a: SubArea| a.name@ == name
}

/// Sub-areas with id `id`.
pub open spec fn sub_area_with_id(id: u64) -> spec_fn(SubArea) -> bool {
    |a: SubArea| a.id == id
}

/// The text of each string.
pub open spec fn texts(v: Seq<String>) -> Seq<Seq<char>> {
    v.map_values(|s: String| s@)
}

/// The names of the areas.
pub open spec fn area_names(areas: Seq<Area>) -> Seq<Seq<char>> {
    areas.map_values(|a: Area| a.name@)
}

/// The names of the sub-areas.
pub open spec fn sub_area_names(list: Seq<SubArea>) -> Seq<Seq<char>> {
    list.map_values(|a: SubArea| a.name@)
}

/// The list offers `s`: some area with the selection's parent id has a
/// sub-area with the selection's area id.
pub open spec fn offers(areas: Seq<Area>, s: AreaSelection) -> bool {
    exists|i: int, j: int|
        #![trigger areas[i].list@[j]]
        0 <= i < areas.len() && 0 <= j < areas[i].list@.len() && areas[i].id == s.parent_id
            && areas[i].list@[j].id == s.area_id
}

/// A chosen area, if any, is one the list offers.
pub open spec fn selection_offered(state: AreaState) -> bool {
    match state {
        AreaState::Ready { areas, selection } => match selection {
            Some(s) => offers(areas@, s),
            None => true,
        },
        _ => true,
    }
}

/// The first sub-area of `parent`, as a selection.
pub open spec fn parent_selection(parent: Area) -> Option<AreaSelection> {
    if parent.list@.len() > 0 {
        Some(AreaSelection { parent_id: parent.id, area_id: parent.list@[0].id })
    } else {
        None
    }
}

/// The selection a freshly loaded list starts with: the first sub-area of
/// the first area.
pub open spec fn first_selection(areas: Seq<Area>) -> Option<AreaSelection> {
    if areas.len() > 0 {
        parent_selection(areas[0])
    } else {
        None
    }
}

/// The first area called `name`.
pub open spec fn parent_by_name(areas: Seq<Area>, name: Option<String>) -> Option<int> {
    match name {
        Some(n) => first_index(areas, area_named(n@)),
        None => None,
    }
}

/// The selection after choosing the top-level area called `name`: that
/// area's first sub-area.
pub open spec fn selection_for_parent(areas: Seq<Area>, name: Option<String>) -> Option<
    AreaSelection,
> {
    match parent_by_name(areas, name) {
        Some(i) => parent_selection(areas[i]),
        None => None,
    }
}

/// The selection after choosing the sub-area called `name` under the area
/// with id `parent_id`.
pub open spec fn selection_for_sub(areas: Seq<Area>, parent_id: u64, name: Option<String>) -> Option<
    AreaSelection,
> {
    match first_index(areas, area_with_id(parent_id)) {
        Some(i) => match name {
            Some(n) => match first_index(areas[i].list@, sub_area_named(n@)) {
                Some(j) => Some(AreaSelection { parent_id, area_id: areas[i].list@[j].id }),
                None => None,
            },
            None => None,
        },
        None => None,
    }
}

/// Where the area `area_id` under `parent_id` stands in the list: the row of
/// the first area with the parent id and the row of the first of its
/// sub-areas with the area id.
pub open spec fn locate_area(areas: Seq<Area>, parent_id: u64, area_id: u64) -> Option<(int, int)> {
    match first_index(areas, area_with_id(parent_id)) {
        Some(i) => match first_index(areas[i].list@, sub_area_with_id(area_id)) {
            Some(j) => Some((i, j)),
            None => None,
        },
        None => None,
    }
}

/// The room id of a room state.
pub open spec fn room_id_of(room: RoomState) -> Result<u64, EditorError> {
    match room {
        RoomState::Ready(id) => Ok(id),
        _ => Err(EditorError::RoomNotReady),
    }
}

/// The chosen area id of an area state.
pub open spec fn area_id_of(areas: AreaState) -> Result<u64, EditorError> {
    match areas {
        AreaState::Loading => Err(EditorError::AreasNotReady),
        AreaState::Ready { selection, .. } => match selection {
            Some(s) => Ok(s.area_id),
            None => Err(EditorError::NoAreaSelected),
        },
        AreaState::Failed => Err(EditorError::NoAreaSelected),
    }
}

/// The list of a loaded area state.
pub open spec fn listed_areas(state: AreaState) -> Seq<Area> {
    match state {
        AreaState::Ready { areas, .. } => areas@,
        _ => Seq::empty(),
    }
}

/// The selection of a loaded area state.
pub open spec fn chosen_area(state: AreaState) -> Option<AreaSelection> {
    match state {
        AreaState::Ready { selection, .. } => selection,
        _ => None,
    }
}

/// A freshly loaded list chooses the first sub-area of the first area, the
/// rows both menus highlight; an empty list, or a first area without
/// sub-areas, chooses nothing.
pub proof fn lemma_first_selection_is_first_rows(areas: Seq<Area>)
    ensures
        areas.len() > 0 && areas[0].list@.len() > 0 ==> first_selection(areas) == Some(
            AreaSelection { parent_id: areas[0].id, area_id: areas[0].list@[0].id },
        ),
        areas.len() == 0 || areas[0].list@.len() == 0 ==> first_selection(areas) is None,
{
}

/// Choosing the top-level area called `name` chooses the first sub-area of
/// the first area of that name: its id and the id of its sub-area at row 0,
/// the row the sub-area menu highlights.
pub proof fn lemma_parent_choice_takes_first_sub_area(areas: Seq<Area>, name: String, i: int)
    requires
        0 <= i < areas.len(),
        areas[i].name@ == name@,
        forall|k: int| 0 <= k < i ==> #[trigger] areas[k].name@ != name@,
        areas[i].list@.len() > 0,
    ensures
        parent_by_name(areas, Some(name)) == Some(i),
        selection_for_parent(areas, Some(name)) == Some(
            AreaSelection { parent_id: areas[i].id, area_id: areas[i].list@[0].id },
        ),
{
    assert forall|k: int| 0 <= k < i implies !#[trigger] area_named(name@)(areas[k]) by {
        assert(areas[k].name@ != name@);
    }
    lemma_first_index_is(areas, area_named(name@), i);
}

/// Choosing a top-level area whose first match lists no sub-area, or a name
/// no area has, leaves nothing chosen.
pub proof fn lemma_parent_choice_without_sub_areas(areas: Seq<Area>, name: String)
    requires
        forall|k: int| 0 <= k < areas.len() && #[trigger] areas[k].name@ == name@ ==> areas[k].list@.len() == 0,
    ensures
        selection_for_parent(areas, Some(name)) is None,
{
    lemma_first_index_found(areas, area_named(name@));
}

/// Choosing the sub-area called `name` under the chosen parent `parent_id`
/// chooses the first sub-area of that name in the first area with that id,
/// whatever the row of that area.
pub proof fn lemma_sub_choice_under_chosen_parent(
    areas: Seq<Area>,
    parent_id: u64,
    name: String,
    i: int,
    j: int,
)
    requires
        0 <= i < areas.len(),
        areas[i].id == parent_id,
        forall|k: int| 0 <= k < i ==> #[trigger] areas[k].id != parent_id,
        0 <= j < areas[i].list@.len(),
        areas[i].list@[j].name@ == name@,
        forall|k: int| 0 <= k < j ==> #[trigger] areas[i].list@[k].name@ != name@,
    ensures
        selection_for_sub(areas, parent_id, Some(name)) == Some(
            AreaSelection { parent_id, area_id: areas[i].list@[j].id },
        ),
{
    assert forall|k: int| 0 <= k < i implies !#[trigger] area_with_id(parent_id)(areas[k]) by {
        assert(areas[k].id != parent_id);
    }
    lemma_first_index_is(areas, area_with_id(parent_id), i);
    let list = areas[i].list@;
    assert forall|k: int| 0 <= k < j implies !#[trigger] sub_area_named(name@)(list[k]) by {
        assert(list[k].name@ != name@);
    }
    lemma_first_index_is(list, sub_area_named(name@), j);
}

/// Choosing a sub-area name that the chosen parent's area does not list
/// leaves nothing chosen.
pub proof fn lemma_sub_choice_unknown_name(areas: Seq<Area>, parent_id: u64, name: String, i: int)
    requires
        0 <= i < areas.len(),
        areas[i].id == parent_id,
        forall|k: int| 0 <= k < i ==> #[trigger] areas[k].id != parent_id,
        forall|k: int| 0 <= k < areas[i].list@.len() ==> #[trigger] areas[i].list@[k].name@ != name@,
    ensures
        selection_for_sub(areas, parent_id, Some(name)) is None,
{
    assert forall|k: int| 0 <= k < i implies !#[trigger] area_with_id(parent_id)(areas[k]) by {
        assert(areas[k].id != parent_id);
    }
    lemma_first_index_is(areas, area_with_id(parent_id), i);
    let list = areas[i].list@;
    assert forall|k: int| 0 <= k < list.len() implies !#[trigger] sub_area_named(name@)(list[k]) by {
        assert(list[k].name@ != name@);
    }
    lemma_first_index_none(list, sub_area_named(name@));
}

/// The room's area `area_id` under `parent_id` is found at the row `i` of
/// the first area with that id, whatever that row, and at the row `j` of the
/// first of its sub-areas with that id.
pub proof fn lemma_locate_area_finds_rows(
    areas: Seq<Area>,
    parent_id: u64,
    area_id: u64,
    i: int,
    j: int,
)
    requires
        0 <= i < areas.len(),
        areas[i].id == parent_id,
        forall|k: int| 0 <= k < i ==> #[trigger] areas[k].id != parent_id,
        0 <= j < areas[i].list@.len(),
        areas[i].list@[j].id == area_id,
        forall|k: int| 0 <= k < j ==> #[trigger] areas[i].list@[k].id != area_id,
    ensures
        locate_area(areas, parent_id, area_id) == Some((i, j)),
{
    assert forall|k: int| 0 <= k < i implies !#[trigger] area_with_id(parent_id)(areas[k]) by {
        assert(areas[k].id != parent_id);
    }
    lemma_first_index_is(areas, area_with_id(parent_id), i);
    let list = areas[i].list@;
    assert forall|k: int| 0 <= k < j implies !#[trigger] sub_area_with_id(area_id)(list[k]) by {
        assert(list[k].id != area_id);
    }
    lemma_first_index_is(list, sub_area_with_id(area_id), j);
}

/// An area located in the list is one it offers: the row found holds the
/// parent id and its sub-area row holds the area id.
pub proof fn lemma_located_area_is_listed(areas: Seq<Area>, parent_id: u64, area_id: u64)
    ensures
        locate_area(areas, parent_id, area_id) matches Some((i, j)) ==> {
            &&& 0 <= i < areas.len()
            &&& areas[i].id == parent_id
            &&& 0 <= j < areas[i].list@.len()
            &&& areas[i].list@[j].id == area_id
        },
        (forall|k: int| 0 <= k < areas.len() ==> #[trigger] areas[k].id != parent_id) ==> locate_area(
            areas,
            parent_id,
            area_id,
        ) is None,
{
    lemma_first_index_found(areas, area_with_id(parent_id));
    if let Some(i) = first_index(areas, area_with_id(parent_id)) {
        lemma_first_index_found(areas[i].list@, sub_area_with_id(area_id));
    }
}

fn area_name_list(areas: &Vec<Area>) -> (names: Vec<String>)
    ensures
        texts(names@) == area_names(areas@),
{
    let mut names: Vec<String> = Vec::new();
    let n = areas.len();
    for i in 0..n
        invariant
            n == areas@.len(),
            texts(names@) == area_names(areas@.take(i as int)),
    {
        names.push(areas[i].name.clone());
        assert(area_names(areas@.take(i + 1)) =~= area_names(areas@.take(i as int)).push(
            areas@[i as int].name@,
        ));
        assert(texts(names@) =~= texts(names@.drop_last()).push(names@.last()@));
    }
    assert(areas@.take(n as int) =~= areas@);
    names
}

fn sub_area_name_list(list: &Vec<SubArea>) -> (names: Vec<String>)
    ensures
        texts(names@) == sub_area_names(list@),
{
    let mut names: Vec<String> = Vec::new();
    let n = list.len();
    for i in 0..n
        invariant
            n == list@.len(),
            texts(names@) == sub_area_names(list@.take(i as int)),
    {
        names.push(list[i].name.clone());
        assert(sub_area_names(list@.take(i + 1)) =~= sub_area_names(list@.take(i as int)).push(
            list@[i as int].name@,
        ));
        assert(texts(names@) =~= texts(names@.drop_last()).push(names@.last()@));
    }
    assert(list@.take(n as int) =~= list@);
    names
}

fn find_area_named(areas: &Vec<Area>, name: &String) -> (found: Option<usize>)
    ensures
        found matches Some(i) ==> first_index(areas@, area_named(name@)) == Some(i as int),
        found is None ==> first_index(areas@, area_named(name@)) is None,
{
    let n = areas.len();
    for i in 0..n
        invariant
            n == areas@.len(),
            forall|j: int| 0 <= j < i ==> !area_named(name@)(#[trigger] areas@[j]),
    {
        if areas[i].name == *name {
            proof {
                lemma_first_index_is(areas@, area_named(name@), i as int);
            }
            return Some(i);
        }
    }
    proof {
        lemma_first_index_none(areas@, area_named(name@));
    }
    None
}

fn find_area_with_id(areas: &Vec<Area>, id: u64) -> (found: Option<usize>)
    ensures
        found matches Some(i) ==> first_index(areas@, area_with_id(id)) == Some(i as int),
        found is None ==> first_index(areas@, area_with_id(id)) is None,
{
    let n = areas.len();
    for i in 0..n
        invariant
            n == areas@.len(),
            forall|j: int| 0 <= j < i ==> !area_with_id(id)(#[trigger] areas@[j]),
    {
        if areas[i].id == id {
            proof {
                lemma_first_index_is(areas@, area_with_id(id), i as int);
            }
            return Some(i);
        }
    }
    proof {
        lemma_first_index_none(areas@, area_with_id(id));
    }
    None
}

fn find_sub_area_named(list: &Vec<SubArea>, name: &String) -> (found: Option<usize>)
    ensures
        found matches Some(j) ==> first_index(list@, sub_area_named(name@)) == Some(j as int),
        found is None ==> first_index(list@, sub_area_named(name@)) is None,
{
    let n = list.len();
    for j in 0..n
        invariant
            n == list@.len(),
            forall|k: int| 0 <= k < j ==> !sub_area_named(name@)(#[trigger] list@[k]),
    {
        if list[j].name == *name {
            proof {
                lemma_first_index_is(list@, sub_area_named(name@), j as int);
            }
            return Some(j);
        }
    }
    proof {
        lemma_first_index_none(list@, sub_area_named(name@));
    }
    None
}

fn find_sub_area_with_id(list: &Vec<SubArea>, id: u64) -> (found: Option<usize>)
    ensures
        found matches Some(j) ==> first_index(list@, sub_area_with_id(id)) == Some(j as int),
        found is None ==> first_index(list@, sub_area_with_id(id)) is None,
{
    let n = list.len();
    for j in 0..n
        invariant
            n == list@.len(),
            forall|k: int| 0 <= k < j ==> !sub_area_with_id(id)(#[trigger] list@[k]),
    {
        if list[j].id == id {
            proof {
                lemma_first_index_is(list@, sub_area_with_id(id), j as int);
            }
            return Some(j);
        }
    }
    proof {
        lemma_first_index_none(list@, sub_area_with_id(id));
    }
    None
}

/// The state behind the room editor.
pub struct RoomEditor {
    room: RoomState,
    areas: AreaState,
    update: UpdateState,
    broadcast_locked: bool,
}

impl RoomEditor {
    /// The room lookup's progress.
    pub closed spec fn current_room(self) -> RoomState {
        self.room
    }

    /// The area list and the chosen area.
    pub closed spec fn current_areas(self) -> AreaState {
        self.areas
    }

    /// A room update is under way.
    pub closed spec fn updating(self) -> bool {
        self.update == UpdateState::Updating
    }

    /// A broadcast is being started, which freezes the room.
    pub closed spec fn locked(self) -> bool {
        self.broadcast_locked
    }

    /// The chosen area is always one the loaded list offers: some area with
    /// the chosen parent id lists a sub-area with the chosen area id.
    #[verifier::type_invariant]
    closed spec fn chosen_area_is_offered(self) -> bool {
        selection_offered(self.areas)
    }

    /// An editor still waiting for its room and its area list.
    pub fn new() -> (editor: Self)
        ensures
            editor.current_room() == RoomState::Loading,
            editor.current_areas() is Loading,
            !editor.updating(),
            !editor.locked(),
    {
        RoomEditor {
            room: RoomState::Loading,
            areas: AreaState::Loading,
            update: UpdateState::Idle,
            broadcast_locked: false,
        }
    }

    /// The room lookup's progress.
    pub fn room_state(&self) -> (room: &RoomState)
        ensures
            *room == self.current_room(),
    {
        &self.room
    }

    /// The area list and the chosen area.
    pub fn area_state(&self) -> (areas: &AreaState)
        ensures
            *areas == self.current_areas(),
    {
        &self.areas
    }

    /// A room update is under way.
    pub fn is_updating(&self) -> (updating: bool)
        ensures
            updating == self.updating(),
    {
        self.update == UpdateState::Updating
    }

    /// A broadcast is being started.
    pub fn is_broadcast_locked(&self) -> (locked: bool)
        ensures
            locked == self.locked(),
    {
        self.broadcast_locked
    }

    /// The title can be sent: the room is known and no update or start is
    /// in progress.
    pub fn can_update_title(&self) -> (enabled: bool)
        ensures
            enabled == (!self.updating() && !self.locked() && self.current_room() is Ready),
    {
        self.update == UpdateState::Idle && !self.broadcast_locked && match self.room {
            RoomState::Ready(_) => true,
            _ => false,
        }
    }

    /// The area menus can be used: the list is loaded and an area is chosen.
    pub fn areas_selectable(&self) -> (enabled: bool)
        ensures
            enabled == (self.current_areas() matches AreaState::Ready { selection: Some(_), .. }),
    {
        match &self.areas {
            AreaState::Ready { selection: Some(_), .. } => true,
            _ => false,
        }
    }

    /// The area can be sent: the title could be, and an area is chosen.
    pub fn can_update_area(&self) -> (enabled: bool)
        ensures
            enabled == (!self.updating() && !self.locked() && self.current_room() is Ready && (
            self.current_areas() matches AreaState::Ready { selection: Some(_), .. })),
    {
        self.can_update_title() && self.areas_selectable()
    }

    /// Freezes or releases the room while a broadcast starts.
    pub fn set_broadcast_locked(&mut self, locked: bool)
        ensures
            final(self).locked() == locked,
            final(self).current_room() == old(self).current_room(),
            final(self).current_areas() == old(self).current_areas(),
            final(self).updating() == old(self).updating(),
    {
        proof {
            use_type_invariant(&*self);
        }
        self.broadcast_locked = locked;
    }

    /// The room number as shown: the number once known, otherwise a word
    /// for the lookup's progress.
    pub fn room_label(&self) -> (label: String)
        ensures
            label@ == match self.current_room() {
                RoomState::Ready(id) => decimal(id as nat),
                RoomState::Failed => "获取失败"@,
                _ => "获取中..."@,
            },
    {
        match self.room {
            RoomState::Loading | RoomState::LoadingDetails => String::from_str("获取中..."),
            RoomState::Ready(room_id) => decimal_string(room_id),
            RoomState::Failed => String::from_str("获取失败"),
        }
    }

    /// The room, once known.
    pub fn room_id(&self) -> (id: Result<u64, EditorError>)
        ensures
            id == room_id_of(self.current_room()),
    {
        match self.room {
            RoomState::Ready(room_id) => Ok(room_id),
            _ => Err(EditorError::RoomNotReady),
        }
    }

    /// The chosen area, once chosen; it is always one the list offers.
    pub fn area_id(&self) -> (id: Result<u64, EditorError>)
        ensures
            id == area_id_of(self.current_areas()),
            id matches Ok(area_id) ==> exists|i: int, j: int|
                #![trigger listed_areas(self.current_areas())[i].list@[j]]
                0 <= i < listed_areas(self.current_areas()).len() && 0 <= j
                    < listed_areas(self.current_areas())[i].list@.len() && listed_areas(
                    self.current_areas(),
                )[i].list@[j].id == area_id,
    {
        proof {
            use_type_invariant(self);
        }
        match &self.areas {
            AreaState::Loading => Err(EditorError::AreasNotReady),
            AreaState::Ready { areas, selection } => match selection {
                Some(selection) => {
                    proof {
                        let (i, j) = choose|i: int, j: int|
                            #![trigger areas@[i].list@[j]]
                            0 <= i < areas@.len() && 0 <= j < areas@[i].list@.len()
                                && areas@[i].id == selection.parent_id && areas@[i].list@[j].id
                                == selection.area_id;
                        assert(listed_areas(self.current_areas())[i].list@[j].id
                            == selection.area_id);
                    }
                    Ok(selection.area_id)
                },
                None => Err(EditorError::NoAreaSelected),
            },
            AreaState::Failed => Err(EditorError::NoAreaSelected),
        }
    }

    /// What starting a broadcast with `title` needs: refused while an update
    /// or a start is in progress, otherwise the room, the title and the
    /// chosen area, or the first of them that is missing.
    pub open spec fn start_request_for(self, title: String) -> Result<StartLiveRequest, EditorError> {
        if self.updating() || self.locked() {
            Err(EditorError::Busy)
        } else {
            match (room_id_of(self.current_room()), area_id_of(self.current_areas())) {
                (Err(e), _) => Err(e),
                (Ok(_), Err(e)) => Err(e),
                (Ok(room_id), Ok(area_id)) => Ok(StartLiveRequest { room_id, title, area_id }),
            }
        }
    }

    /// What starting a broadcast needs: refused while an update or a start is
    /// in progress, otherwise the room, the given title and the chosen area.
    pub fn start_request(&self, title: String) -> (request: Result<StartLiveRequest, EditorError>)
        ensures
            request == self.start_request_for(title),
    {
        if self.update == UpdateState::Updating || self.broadcast_locked {
            return Err(EditorError::Busy);
        }
        let room_id = match self.room_id() {
            Ok(room_id) => room_id,
            Err(e) => return Err(e),
        };
        let area_id = match self.area_id() {
            Ok(area_id) => area_id,
            Err(e) => return Err(e),
        };
        Ok(StartLiveRequest { room_id, title, area_id })
    }

    /// Takes in the area list: the first sub-area of the first area is chosen.
    /// The top-level menu lists every area and the sub-area menu the first
    /// area's sub-areas, both on their first row when something is chosen.
    pub fn install_areas(&mut self, areas: Vec<Area>) -> (menus: (AreaMenu, AreaMenu))
        ensures
            final(self).current_areas() == (AreaState::Ready {
                areas,
                selection: first_selection(areas@),
            }),
            final(self).current_room() == old(self).current_room(),
            final(self).updating() == old(self).updating(),
            final(self).locked() == old(self).locked(),
            texts(menus.0.names@) == area_names(areas@),
            texts(menus.1.names@) == if areas@.len() > 0 {
                sub_area_names(areas@[0].list@)
            } else {
                Seq::<Seq<char>>::empty()
            },
            menus.0.selected == if first_selection(areas@) is Some {
                Some(0usize)
            } else {
                None
            },
            menus.1.selected == menus.0.selected,
    {
        let selection = if areas.len() > 0 && areas[0].list.len() > 0 {
            assert(areas@[0].list@[0] == areas@[0].list@[0]);
            Some(AreaSelection { parent_id: areas[0].id, area_id: areas[0].list[0].id })
        } else {
            None
        };
        let parent_names = area_name_list(&areas);
        let sub_names = if areas.len() > 0 {
            sub_area_name_list(&areas[0].list)
        } else {
            Vec::new()
        };
        let selected = if selection.is_some() {
            Some(0)
        } else {
            None
        };
        self.areas = AreaState::Ready { areas, selection };
        (AreaMenu { names: parent_names, selected }, AreaMenu { names: sub_names, selected })
    }

    /// The area list could not be loaded.
    pub fn areas_failed(&mut self)
        ensures
            final(self).current_areas() is Failed,
            final(self).current_room() == old(self).current_room(),
            final(self).updating() == old(self).updating(),
            final(self).locked() == old(self).locked(),
    {
        self.areas = AreaState::Failed;
    }

    /// The room of the account is known; its details are being fetched.
    pub fn room_found(&mut self)
        ensures
            final(self).current_room() == RoomState::LoadingDetails,
            final(self).current_areas() == old(self).current_areas(),
            final(self).updating() == old(self).updating(),
            final(self).locked() == old(self).locked(),
    {
        proof {
            use_type_invariant(&*self);
        }
        self.room = RoomState::LoadingDetails;
    }

    /// The room or its details could not be fetched.
    pub fn room_lookup_failed(&mut self)
        ensures
            final(self).current_room() == RoomState::Failed,
            final(self).current_areas() == old(self).current_areas(),
            final(self).updating() == old(self).updating(),
            final(self).locked() == old(self).locked(),
    {
        proof {
            use_type_invariant(&*self);
        }
        self.room = RoomState::Failed;
    }

    /// The room `room_id` and its details arrived: the room is ready, its
    /// title goes to the title field, its area is chosen when the list has
    /// it, and a room already on the air is reported.
    pub fn room_loaded(&mut self, room_id: u64, info: &RoomInfo) -> (loaded: RoomLoaded)
        ensures
            final(self).current_room() == RoomState::Ready(room_id),
            loaded.title@ == info.title@,
            loaded.live_restored == (info.live_status == LiveStatus::Living),
            ({
                let areas = listed_areas(old(self).current_areas());
                match locate_area(areas, info.parent_area_id, info.area_id) {
                    Some((i, j)) if old(self).current_areas() is Ready => {
                        &&& final(self).current_areas() is Ready
                        &&& listed_areas(final(self).current_areas()) == areas
                        &&& chosen_area(final(self).current_areas()) == Some(
                            AreaSelection {
                                parent_id: info.parent_area_id,
                                area_id: info.area_id,
                            },
                        )
                        &&& loaded.area_menu matches Some((row, m)) && row == i && texts(
                            m.names@,
                        ) == sub_area_names(areas[i].list@) && m.selected == Some(j as usize)
                    },
                    _ => loaded.area_menu is None && final(self).current_areas() == old(self).current_areas(),
                }
            }),
            final(self).updating() == old(self).updating(),
            final(self).locked() == old(self).locked(),
    {
        let area_menu = self.select_area(info.parent_area_id, info.area_id);
        proof {
            use_type_invariant(&*self);
        }
        self.room = RoomState::Ready(room_id);
        RoomLoaded {
            title: info.title.clone(),
            area_menu,
            live_restored: info.live_status == LiveStatus::Living,
        }
    }

    /// An update of the title (when `title`) and of the area (when `area`)
    /// is asked for, with `title_value` in the title field. Nothing happens
    /// while an update or a start is in progress; without a room, or without
    /// a chosen area when the area is to change, the update is refused;
    /// otherwise it is under way until `finish_update`.
    pub fn begin_update(&mut self, title: bool, area: bool, title_value: String) -> (decision:
        UpdateDecision)
        ensures
            old(self).updating() || old(self).locked() ==> decision is Ignored && *final(self)
                == *old(self),
            !(old(self).updating() || old(self).locked()) ==> match (
                room_id_of(old(self).current_room()),
                area_id_of(old(self).current_areas()),
            ) {
                (Err(_), _) => decision == UpdateDecision::Rejected(EditorError::RoomNotReady)
                    && *final(self) == *old(self),
                (Ok(_), Err(_)) if area => decision == UpdateDecision::Rejected(
                    EditorError::AreasNotReady,
                ) && *final(self) == *old(self),
                (Ok(room_id), chosen) => {
                    &&& final(self).updating()
                    &&& final(self).current_room() == old(self).current_room()
                    &&& final(self).current_areas() == old(self).current_areas()
                    &&& final(self).locked() == old(self).locked()
                    &&& decision == UpdateDecision::Launch {
                        room_id,
                        title: if title {
                            Some(title_value)
                        } else {
                            None
                        },
                        area_id: if area {
                            Some(chosen->Ok_0)
                        } else {
                            None
                        },
                    }
                },
            },
    {
        if self.update == UpdateState::Updating || self.broadcast_locked {
            return UpdateDecision::Ignored;
        }
        let room_id = match self.room_id() {
            Ok(room_id) => room_id,
            Err(_) => return UpdateDecision::Rejected(EditorError::RoomNotReady),
        };
        let area_id = if area {
            match self.area_id() {
                Ok(area_id) => Some(area_id),
                Err(_) => return UpdateDecision::Rejected(EditorError::AreasNotReady),
            }
        } else {
            None
        };
        proof {
            use_type_invariant(&*self);
        }
        self.update = UpdateState::Updating;
        UpdateDecision::Launch {
            room_id,
            title: if title {
                Some(title_value)
            } else {
                None
            },
            area_id,
        }
    }

    /// The update ended, whatever its result.
    pub fn finish_update(&mut self)
        ensures
            !final(self).updating(),
            final(self).current_room() == old(self).current_room(),
            final(self).current_areas() == old(self).current_areas(),
            final(self).locked() == old(self).locked(),
    {
        proof {
            use_type_invariant(&*self);
        }
        self.update = UpdateState::Idle;
    }

    /// Chooses the top-level area called `name` (the first of that name):
    /// its first sub-area becomes the chosen area, and the sub-area menu
    /// lists its sub-areas, on the first row when one is chosen. When no
    /// area has that name nothing is chosen and the menu is empty. Before
    /// the list is loaded nothing changes and no menu is given.
    pub fn select_parent(&mut self, name: Option<String>) -> (menu: Option<AreaMenu>)
        ensures
            !(old(self).current_areas() is Ready) ==> menu is None && *final(self) == *old(self),
            old(self).current_areas() is Ready ==> {
                let areas = listed_areas(old(self).current_areas());
                let chosen = selection_for_parent(areas, name);
                &&& final(self).current_areas() is Ready
                &&& listed_areas(final(self).current_areas()) == areas
                &&& chosen_area(final(self).current_areas()) == chosen
                &&& menu matches Some(m) && texts(m.names@) == match parent_by_name(areas, name) {
                    Some(i) => sub_area_names(areas[i].list@),
                    None => Seq::<Seq<char>>::empty(),
                } && m.selected == if chosen is Some {
                    Some(0usize)
                } else {
                    None
                }
            },
            final(self).current_room() == old(self).current_room(),
            final(self).updating() == old(self).updating(),
            final(self).locked() == old(self).locked(),
    {
        let mut current = AreaState::Loading;
        std::mem::swap(&mut current, &mut self.areas);
        match current {
            AreaState::Ready { areas, selection: _ } => {
                let found = match &name {
                    Some(n) => find_area_named(&areas, n),
                    None => None,
                };
                let (selection, names) = match found {
                    Some(i) => {
                        proof {
                            lemma_first_index_found(areas@, area_named(name->Some_0@));
                        }
                        if areas[i].list.len() > 0 {
                            assert(areas@[i as int].list@[0] == areas@[i as int].list@[0]);
                            (
                                Some(
                                    AreaSelection {
                                        parent_id: areas[i].id,
                                        area_id: areas[i].list[0].id,
                                    },
                                ),
                                sub_area_name_list(&areas[i].list),
                            )
                        } else {
                            (None, sub_area_name_list(&areas[i].list))
                        }
                    },
                    None => (None, Vec::new()),
                };
                let selected = if selection.is_some() {
                    Some(0)
                } else {
                    None
                };
                self.areas = AreaState::Ready { areas, selection };
                Some(AreaMenu { names, selected })
            },
            other => {
                self.areas = other;
                None
            },
        }
    }

    /// Chooses the sub-area called `name` (the first of that name) under the
    /// chosen top-level area; when there is none, nothing stays chosen.
    /// Without a chosen area, or before the list is loaded, nothing changes.
    pub fn select_sub(&mut self, name: Option<String>)
        ensures
            chosen_area(old(self).current_areas()) is None ==> *final(self) == *old(self),
            chosen_area(old(self).current_areas()) matches Some(s) ==> {
                let areas = listed_areas(old(self).current_areas());
                &&& final(self).current_areas() is Ready
                &&& listed_areas(final(self).current_areas()) == areas
                &&& chosen_area(final(self).current_areas()) == selection_for_sub(
                    areas,
                    s.parent_id,
                    name,
                )
            },
            final(self).current_room() == old(self).current_room(),
            final(self).updating() == old(self).updating(),
            final(self).locked() == old(self).locked(),
    {
        let mut current = AreaState::Loading;
        std::mem::swap(&mut current, &mut self.areas);
        match current {
            AreaState::Ready { areas, selection: Some(chosen) } => {
                let parent_id = chosen.parent_id;
                let selection = match find_area_with_id(&areas, parent_id) {
                    Some(i) => {
                        proof {
                            lemma_first_index_found(areas@, area_with_id(parent_id));
                        }
                        match &name {
                            Some(n) => match find_sub_area_named(&areas[i].list, n) {
                                Some(j) => {
                                    proof {
                                        lemma_first_index_found(
                                            areas@[i as int].list@,
                                            sub_area_named(n@),
                                        );
                                    }
                                    assert(areas@[i as int].list@[j as int]
                                        == areas@[i as int].list@[j as int]);
                                    Some(
                                        AreaSelection { parent_id, area_id: areas[i].list[j].id },
                                    )
                                },
                                None => None,
                            },
                            None => None,
                        }
                    },
                    None => None,
                };
                self.areas = AreaState::Ready { areas, selection };
            },
            other => {
                self.areas = other;
            },
        }
    }

    /// Chooses the area `area_id` under `parent_id` when the list has it,
    /// giving the row of its parent in the top-level menu and the sub-area
    /// menu of that parent on the area's row. Otherwise nothing changes.
    pub fn select_area(&mut self, parent_id: u64, area_id: u64) -> (placed: Option<
        (usize, AreaMenu),
    >)
        ensures
            ({
                let areas = listed_areas(old(self).current_areas());
                match locate_area(areas, parent_id, area_id) {
                    Some((i, j)) if old(self).current_areas() is Ready => {
                        &&& final(self).current_areas() is Ready
                        &&& listed_areas(final(self).current_areas()) == areas
                        &&& chosen_area(final(self).current_areas()) == Some(
                            AreaSelection { parent_id, area_id },
                        )
                        &&& placed matches Some((row, m)) && row == i && texts(m.names@)
                            == sub_area_names(areas[i].list@) && m.selected == Some(j as usize)
                    },
                    _ => placed is None && *final(self) == *old(self),
                }
            }),
            final(self).current_room() == old(self).current_room(),
            final(self).updating() == old(self).updating(),
            final(self).locked() == old(self).locked(),
    {
        proof {
            use_type_invariant(&*self);
        }
        let mut current = AreaState::Loading;
        std::mem::swap(&mut current, &mut self.areas);
        match current {
            AreaState::Ready { areas, selection } => {
                let i = match find_area_with_id(&areas, parent_id) {
                    Some(i) => i,
                    None => {
                        self.areas = AreaState::Ready { areas, selection };
                        return None;
                    },
                };
                proof {
                    lemma_first_index_found(areas@, area_with_id(parent_id));
                }
                let j = match find_sub_area_with_id(&areas[i].list, area_id) {
                    Some(j) => j,
                    None => {
                        self.areas = AreaState::Ready { areas, selection };
                        return None;
                    },
                };
                proof {
                    lemma_first_index_found(areas@[i as int].list@, sub_area_with_id(area_id));
                }
                assert(areas@[i as int].list@[j as int] == areas@[i as int].list@[j as int]);
                let names = sub_area_name_list(&areas[i].list);
                self.areas = AreaState::Ready {
                    areas,
                    selection: Some(AreaSelection { parent_id, area_id }),
                };
                Some((i, AreaMenu { names, selected: Some(j) }))
            },
            other => {
                self.areas = other;
                None
            },
        }
    }
}

} // verus!
