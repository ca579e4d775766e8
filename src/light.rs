use vstd::prelude::*;

verus! {

/// What the controller reads of one light on the backend.
#[derive(Clone, Copy, Debug, PartialEq, Eq, Structural)]
pub struct LightStatus {
    pub id: u64,
    pub on: bool,
}

/// Why a toggle did not happen.
#[derive(Clone, Copy, Debug, PartialEq, Eq, Structural)]
pub enum ToggleError {
    /// No light on the backend has the requested id.
    NotFound,
    /// Listing the lights or setting the state failed on the backend.
    BackendError,
}

/// One set-state call to issue: the light at `index` of the listing, whose
/// id is `id`, is switched to `on`.
#[derive(Clone, Copy, Debug, PartialEq, Eq, Structural)]
pub struct SetState {
    pub index: usize,
    pub id: u64,
    pub on: bool,
}

pub open spec fn has_light(lights: Seq<LightStatus>, id: u64) -> bool {
    exists|i: int| 0 <= i < lights.len() && #[trigger] lights[i].id == id
}

/// `i` is the first position of the listing that holds the light `id`.
pub open spec fn is_first(lights: Seq<LightStatus>, id: u64, i: int) -> bool {
    &&& 0 <= i < lights.len()
    &&& lights[i].id == id
    &&& forall|j: int| 0 <= j < i ==> #[trigger] lights[j].id != id
}

/// The set-state call that inverts the light found at position `i`.
pub open spec fn inversion_at(lights: Seq<LightStatus>, i: int) -> SetState {
    SetState { index: i as usize, id: lights[i].id, on: !lights[i].on }
}

/// What the backend holds after a set-state call.
pub open spec fn apply_set(lights: Seq<LightStatus>, s: SetState) -> Seq<LightStatus> {
    lights.update(s.index as int, LightStatus { id: s.id, on: s.on })
}

/// Finds the first light of the listing with the given id (a linear scan).
pub fn find_light(lights: &Vec<LightStatus>, id: u64) -> (r: Option<usize>)
    ensures
        r is None <==> !has_light(lights@, id),
        r matches Some(i) ==> is_first(lights@, id, i as int),
{
    let mut i: usize = 0;
    while i < lights.len()
        invariant
            i <= lights@.len(),
            forall|j: int| 0 <= j < i ==> #[trigger] lights@[j].id != id,
        decreases lights@.len() - i,
    {
        if lights[i].id == id {
            return Some(i);
        }
        i = i + 1;
    }
    None
}

/// Decides the set-state call that toggles light `id`, given the backend's
/// listing: the first light with that id is switched to the opposite of its
/// current state; with no such light the toggle fails with `NotFound`.
pub fn plan_toggle(lights: &Vec<LightStatus>, id: u64) -> (r: Result<SetState, ToggleError>)
    ensures
        r == Err::<SetState, ToggleError>(ToggleError::NotFound) <==> !has_light(lights@, id),
        r is Ok <==> has_light(lights@, id),
        r matches Ok(s) ==> is_first(lights@, id, s.index as int) && s == inversion_at(
            lights@,
            s.index as int,
        ),
{
    match find_light(lights, id) {
        Some(i) => Ok(SetState { index: i, id: lights[i].id, on: !lights[i].on }),
        None => Err(ToggleError::NotFound),
    }
}

/// The first position of a light is unique.
pub proof fn lemma_first_unique(lights: Seq<LightStatus>, id: u64, i: int, k: int)
    requires
        is_first(lights, id, i),
        is_first(lights, id, k),
    ensures
        i == k,
{
    if i < k {
        assert(lights[i].id != id);
    } else if k < i {
        assert(lights[k].id != id);
    }
}

/// Toggling a light twice returns the backend to where it was: the first
/// toggle inverts the light's state, and a second one, planned on what the
/// first left behind, finds the same light and inverts it back. The listing
/// is one that a `Vec` can hold.
pub proof fn lemma_toggle_twice(lights: Seq<LightStatus>, id: u64, i: int)
    requires
        is_first(lights, id, i),
        lights.len() <= usize::MAX,
    ensures
        apply_set(lights, inversion_at(lights, i))[i].on == !lights[i].on,
        is_first(apply_set(lights, inversion_at(lights, i)), id, i),
        forall|k: int| #[trigger]
            is_first(apply_set(lights, inversion_at(lights, i)), id, k) ==> k == i,
        apply_set(
            apply_set(lights, inversion_at(lights, i)),
            inversion_at(apply_set(lights, inversion_at(lights, i)), i),
        ) == lights,
{
    let once = apply_set(lights, inversion_at(lights, i));
    let twice = apply_set(once, inversion_at(once, i));
    assert forall|j: int| 0 <= j < i implies #[trigger] once[j].id != id by {
        assert(once[j] == lights[j]);
    }
    assert forall|k: int| #[trigger] is_first(once, id, k) implies k == i by {
        lemma_first_unique(once, id, i, k);
    }
    assert(twice =~= lights);
}

/// The next thing a toggle reaction does once the listing is in.
#[derive(Clone, Copy, Debug, PartialEq, Eq, Structural)]
pub enum ToggleStep {
    /// Issue this set-state call to the backend.
    SetLightState(SetState),
    /// Stop here with this error, and issue no set-state call.
    Failed(ToggleError),
}

/// Decides the step of a toggle of light `id` that follows the backend's
/// listing; `listing` is `None` when listing the lights failed.
pub fn after_listing(listing: Option<&Vec<LightStatus>>, id: u64) -> (r: ToggleStep)
    ensures
        listing is None ==> r == ToggleStep::Failed(ToggleError::BackendError),
        listing matches Some(l) ==> {
            &&& !has_light(l@, id) ==> r == ToggleStep::Failed(ToggleError::NotFound)
            &&& has_light(l@, id) ==> (r matches ToggleStep::SetLightState(s) && is_first(
                l@,
                id,
                s.index as int,
            ) && s == inversion_at(l@, s.index as int))
        },
{
    match listing {
        None => ToggleStep::Failed(ToggleError::BackendError),
        Some(l) => match plan_toggle(l, id) {
            Ok(s) => ToggleStep::SetLightState(s),
            Err(e) => ToggleStep::Failed(e),
        },
    }
}

/// The outcome of a toggle once its set-state call has returned: the new
/// state of the light on success, `BackendError` otherwise.
pub fn after_set(s: &SetState, succeeded: bool) -> (r: Result<bool, ToggleError>)
    ensures
        succeeded ==> r == Ok::<bool, ToggleError>(s.on),
        !succeeded ==> r == Err::<bool, ToggleError>(ToggleError::BackendError),
{
    if succeeded {
        Ok(s.on)
    } else {
        Err(ToggleError::BackendError)
    }
}

/// Colour temperature in kelvin for a value in mired; zero stays zero.
pub fn mirek_to_kelvin(mirek: u16) -> (r: u32)
    ensures
        mirek == 0 ==> r == 0,
        mirek != 0 ==> r == 1000000int / (mirek as int),
{
    if mirek != 0 {
        1000000u32 / (mirek as u32)
    } else {
        0
    }
}

} // verus!
