use vstd::prelude::*;

verus! {

/// The number of light slots that the lighting shader declares.
pub const MAX_LIGHTS: u32 = 4;

/// The location that a shader reports for a uniform it does not have;
/// writes to it are dropped.
pub const UNIFORM_NOT_FOUND: i32 = -1;

/// How the shader evaluates a light: a directional light has no
/// attenuation, a point light does.
#[derive(Debug, Clone, Copy, PartialEq, Eq, Hash, Structural)]
pub enum LightType {
    LightDirectional,
    LightPoint,
}

/// The integer tag under which the shader knows each kind of light.
pub open spec fn light_type_tag(t: LightType) -> i32 {
    match t {
        LightType::LightDirectional => 0,
        LightType::LightPoint => 1,
    }
}

impl LightType {
    /// The integer tag written to the shader for this kind of light.
    pub fn tag(&self) -> (r: i32)
        ensures
            r == light_type_tag(*self),
    {
        match self {
            LightType::LightDirectional => 0,
            LightType::LightPoint => 1,
        }
    }
}

impl Default for LightType {
    fn default() -> (r: Self)
        ensures
            r == LightType::LightDirectional,
    {
        LightType::LightDirectional
    }
}

/// A color as four 8-bit channels; the shader receives each channel
/// divided by 255.
#[derive(Debug, Clone, Copy, PartialEq, Eq, Hash, Structural)]
pub struct Rgba {
    pub r: u8,
    pub g: u8,
    pub b: u8,
    pub a: u8,
}

impl Default for Rgba {
    fn default() -> (r: Self)
        ensures
            r == (Rgba { r: 0, g: 0, b: 0, a: 0 }),
    {
        Rgba { r: 0, g: 0, b: 0, a: 0 }
    }
}

/// The shader locations of the five uniforms of one light slot.
#[derive(Debug, Clone, Copy, PartialEq, Eq, Structural)]
pub struct UniformLocations {
    pub enabled: i32,
    pub light_type: i32,
    pub position: i32,
    pub target: i32,
    pub color: i32,
}

/// A light bound to one slot of a shader, with the locations of the
/// uniforms that its values are written to.
///
/// `V` is the world-space vector type of the host; the registry only
/// carries position and target through to the shader.
#[derive(Debug, PartialEq, Eq)]
pub struct Light<V> {
    pub enabled: bool,
    pub light_type: LightType,
    pub position: V,
    pub target: V,
    pub color: Rgba,
    pub enabled_loc: i32,
    pub type_loc: i32,
    pub pos_loc: i32,
    pub target_loc: i32,
    pub color_loc: i32,
}

impl<V: Copy> Clone for Light<V> {
    fn clone(&self) -> (r: Self)
        ensures
            r == *self,
    {
        Light {
            enabled: self.enabled,
            light_type: self.light_type,
            position: self.position,
            target: self.target,
            color: self.color,
            enabled_loc: self.enabled_loc,
            type_loc: self.type_loc,
            pos_loc: self.pos_loc,
            target_loc: self.target_loc,
            color_loc: self.color_loc,
        }
    }
}

impl<V: Copy + Default> Default for Light<V> {
    /// The default descriptor, with the vector type's default as position and
    /// target.
    fn default() -> (r: Self)
        ensures
            r == default_light(r.position),
            call_ensures(V::default, (), r.position),
    {
        let zero = V::default();
        Light {
            enabled: false,
            light_type: LightType::default(),
            position: zero,
            target: zero,
            color: Rgba::default(),
            enabled_loc: 0,
            type_loc: 0,
            pos_loc: 0,
            target_loc: 0,
            color_loc: 0,
        }
    }
}

/// A value written to a shader uniform.
#[derive(Debug, PartialEq, Eq)]
pub enum UniformValue<V> {
    /// An integer uniform.
    Int(i32),
    /// A three-component vector uniform.
    Vector3(V),
    /// A four-component vector uniform holding a normalized color.
    Color(Rgba),
}

/// One write of `value` to the shader uniform at `location`.
#[derive(Debug, PartialEq, Eq)]
pub struct UniformWrite<V> {
    pub location: i32,
    pub value: UniformValue<V>,
}

/// The writes that bring a shader in step with `light`, in order: enabled
/// state (0 or 1), type tag, position, target, color.
pub open spec fn light_writes<V>(light: Light<V>) -> Seq<UniformWrite<V>> {
    seq![
        UniformWrite { location: light.enabled_loc, value: UniformValue::Int(if light.enabled { 1 } else { 0 }) },
        UniformWrite { location: light.type_loc, value: UniformValue::Int(light_type_tag(light.light_type)) },
        UniformWrite { location: light.pos_loc, value: UniformValue::Vector3(light.position) },
        UniformWrite { location: light.target_loc, value: UniformValue::Vector3(light.target) },
        UniformWrite { location: light.color_loc, value: UniformValue::Color(light.color) },
    ]
}

/// Lists the uniform writes that send `light`'s current values to its
/// shader slot. The host performs them in order.
pub fn update_light_values<V: Copy>(light: &Light<V>) -> (r: Vec<UniformWrite<V>>)
    ensures
        r@ == light_writes(*light),
{
    let enabled: i32 = if light.enabled { 1 } else { 0 };
    let mut writes: Vec<UniformWrite<V>> = Vec::new();
    writes.push(UniformWrite { location: light.enabled_loc, value: UniformValue::Int(enabled) });
    writes.push(UniformWrite { location: light.type_loc, value: UniformValue::Int(light.light_type.tag()) });
    writes.push(UniformWrite { location: light.pos_loc, value: UniformValue::Vector3(light.position) });
    writes.push(UniformWrite { location: light.target_loc, value: UniformValue::Vector3(light.target) });
    writes.push(UniformWrite { location: light.color_loc, value: UniformValue::Color(light.color) });
    assert(writes@ =~= light_writes(*light));
    writes
}

/// One of the five uniforms of a light slot.
#[derive(Debug, Clone, Copy, PartialEq, Eq, Structural)]
pub enum LightField {
    Enabled,
    Type,
    Position,
    Target,
    Color,
}

/// The member name of a light uniform in the shader's light struct.
pub open spec fn field_name(field: LightField) -> Seq<char> {
    match field {
        LightField::Enabled => "enabled"@,
        LightField::Type => "type"@,
        LightField::Position => "position"@,
        LightField::Target => "target"@,
        LightField::Color => "color"@,
    }
}

/// The decimal digit `d` as text.
pub open spec fn digit_text(d: nat) -> Seq<char>
    recommends
        d < 10,
{
    if d == 0 { "0"@ }
    else if d == 1 { "1"@ }
    else if d == 2 { "2"@ }
    else if d == 3 { "3"@ }
    else if d == 4 { "4"@ }
    else if d == 5 { "5"@ }
    else if d == 6 { "6"@ }
    else if d == 7 { "7"@ }
    else if d == 8 { "8"@ }
    else { "9"@ }
}

/// `n` in decimal, without leading zeros.
pub open spec fn decimal(n: nat) -> Seq<char>
    decreases n,
{
    if n < 10 {
        digit_text(n)
    } else {
        decimal(n / 10) + digit_text(n % 10)
    }
}

/// The shader name of uniform `field` of light slot `slot`:
/// `lights[<slot>].<field>`.
pub open spec fn uniform_name_of(slot: nat, field: LightField) -> Seq<char> {
    "lights["@ + decimal(slot) + "]."@ + field_name(field)
}

fn field_str(field: LightField) -> (r: &'static str)
    ensures
        r@ == field_name(field),
{
    match field {
        LightField::Enabled => "enabled",
        LightField::Type => "type",
        LightField::Position => "position",
        LightField::Target => "target",
        LightField::Color => "color",
    }
}

fn digit_str(d: u32) -> (r: &'static str)
    requires
        d < 10,
    ensures
        r@ == digit_text(d as nat),
{
    if d == 0 { "0" }
    else if d == 1 { "1" }
    else if d == 2 { "2" }
    else if d == 3 { "3" }
    else if d == 4 { "4" }
    else if d == 5 { "5" }
    else if d == 6 { "6" }
    else if d == 7 { "7" }
    else if d == 8 { "8" }
    else { "9" }
}

/// Appends `n` in decimal to `s`.
fn append_decimal(s: &mut String, n: u32)
    ensures
        final(s)@ == old(s)@ + decimal(n as nat),
    decreases n,
{
    if n >= 10 {
        append_decimal(s, n / 10);
    }
    s.append(digit_str(n % 10));
    proof {
        if n >= 10 {
            assert(old(s)@ + decimal(n as nat / 10) + digit_text(n as nat % 10) =~= old(s)@ + (decimal(n as nat / 10) + digit_text(n as nat % 10)));
        } else {
            assert(n as nat % 10 == n as nat);
        }
    }
}

/// The shader name of uniform `field` of light slot `slot`, such as
/// `lights[0].position`.
pub fn uniform_name(slot: u32, field: LightField) -> (r: String)
    ensures
        r@ == uniform_name_of(slot as nat, field),
{
    let mut s = String::from_str("lights[");
    append_decimal(&mut s, slot);
    s.append("].");
    s.append(field_str(field));
    s
}

/// The slots of one shader that lights have been bound to. Slots are taken
/// in order, from 0 up to [`MAX_LIGHTS`], and never given back.
#[derive(Debug)]
pub struct LightRegistry {
    count: u32,
}

impl View for LightRegistry {
    type V = nat;

    /// The number of slots taken.
    closed spec fn view(&self) -> nat {
        self.count as nat
    }
}

impl LightRegistry {
    /// No more slots are taken than the shader has.
    pub open spec fn wf(&self) -> bool {
        self@ <= MAX_LIGHTS
    }

    /// A registry with no slot taken.
    pub fn new() -> (r: Self)
        ensures
            r.wf(),
            r@ == 0,
    {
        LightRegistry { count: 0 }
    }

    /// The number of slots taken.
    pub fn count(&self) -> (r: u32)
        ensures
            r == self@,
    {
        self.count
    }

    /// The slot that the next light will take, or `None` when all are taken.
    pub fn next_slot(&self) -> (r: Option<u32>)
        requires
            self.wf(),
        ensures
            r == (if self@ < MAX_LIGHTS { Some(self@ as u32) } else { None::<u32> }),
    {
        if self.count < MAX_LIGHTS {
            Some(self.count)
        } else {
            None
        }
    }
}

/// The default descriptor, with `zero` as its position and target:
/// disabled, directional, black and fully transparent, and with every
/// uniform location 0.
pub open spec fn default_light<V>(zero: V) -> Light<V> {
    Light {
        enabled: false,
        light_type: LightType::LightDirectional,
        position: zero,
        target: zero,
        color: Rgba { r: 0, g: 0, b: 0, a: 0 },
        enabled_loc: 0,
        type_loc: 0,
        pos_loc: 0,
        target_loc: 0,
        color_loc: 0,
    }
}

/// The enabled descriptor of a light bound to the uniforms at `locations`.
pub open spec fn bound_light<V>(
    light_type: LightType,
    position: V,
    target: V,
    color: Rgba,
    locations: UniformLocations,
) -> Light<V> {
    Light {
        enabled: true,
        light_type,
        position,
        target,
        color,
        enabled_loc: locations.enabled,
        type_loc: locations.light_type,
        pos_loc: locations.position,
        target_loc: locations.target,
        color_loc: locations.color,
    }
}

/// Binds a light to the next free slot of `registry`.
///
/// `locations` are the shader's locations of the uniforms named
/// [`uniform_name`]`(slot, ..)` for the slot that [`LightRegistry::next_slot`]
/// reports. While a slot is free, the light comes back enabled and bound to
/// them, with the writes that send its values to the shader, and the slot is
/// taken. When all slots are taken, nothing changes: the default descriptor
/// comes back (see [`default_light`]), with no write to perform.
pub fn create_light<V: Copy + Default>(
    registry: &mut LightRegistry,
    light_type: LightType,
    pos: V,
    targ: V,
    color: Rgba,
    locations: UniformLocations,
) -> (r: (Light<V>, Vec<UniformWrite<V>>))
    requires
        old(registry).wf(),
    ensures
        final(registry).wf(),
        old(registry)@ < MAX_LIGHTS ==> {
            &&& final(registry)@ == old(registry)@ + 1
            &&& r.0 == bound_light(light_type, pos, targ, color, locations)
            &&& r.1@ == light_writes(r.0)
        },
        old(registry)@ >= MAX_LIGHTS ==> {
            &&& final(registry)@ == old(registry)@
            &&& r.0 == default_light(r.0.position)
            &&& call_ensures(V::default, (), r.0.position)
            &&& r.1@.len() == 0
        },
{
    if registry.count < MAX_LIGHTS {
        let light = Light {
            enabled: true,
            light_type,
            position: pos,
            target: targ,
            color,
            enabled_loc: locations.enabled,
            type_loc: locations.light_type,
            pos_loc: locations.position,
            target_loc: locations.target,
            color_loc: locations.color,
        };
        let writes = update_light_values(&light);
        registry.count = registry.count + 1;
        (light, writes)
    } else {
        let light = Light::default();
        (light, Vec::new())
    }
}

/// The shader's uniform values after `writes` are performed in order on
/// uniform values `state`: each write sets the value at its location.
pub open spec fn apply_writes<V>(
    state: Map<i32, UniformValue<V>>,
    writes: Seq<UniformWrite<V>>,
) -> Map<i32, UniformValue<V>>
    decreases writes.len(),
{
    if writes.len() == 0 {
        state
    } else {
        apply_writes(state, writes.drop_last()).insert(writes.last().location, writes.last().value)
    }
}

/// The value that the last write to `location` among `writes` sets, if any.
pub open spec fn last_write<V>(writes: Seq<UniformWrite<V>>, location: i32) -> Option<UniformValue<V>>
    decreases writes.len(),
{
    if writes.len() == 0 {
        None
    } else if writes.last().location == location {
        Some(writes.last().value)
    } else {
        last_write(writes.drop_last(), location)
    }
}

/// After `writes`, a location holds what its last write set, and a location
/// that none of them wrote holds what it held before.
proof fn lemma_apply_writes_at<V>(
    state: Map<i32, UniformValue<V>>,
    writes: Seq<UniformWrite<V>>,
    location: i32,
)
    ensures
        apply_writes(state, writes).contains_key(location) <==> (state.contains_key(location)
            || last_write(writes, location) is Some),
        last_write(writes, location) matches Some(v) ==> apply_writes(state, writes)[location]
            == v,
        last_write(writes, location) is None ==> apply_writes(state, writes)[location]
            == state[location],
    decreases writes.len(),
{
    if writes.len() > 0 {
        lemma_apply_writes_at(state, writes.drop_last(), location);
    }
}

/// Two lights with the same state give the same writes, so pushing a light
/// twice without changing it records the same writes twice.
pub proof fn lemma_update_light_values_deterministic<V>(a: Light<V>, b: Light<V>)
    requires
        a == b,
    ensures
        light_writes(a) == light_writes(b),
{
}

/// Pushing a light's values twice leaves the shader's uniforms as pushing
/// them once does, whatever the uniforms held before.
pub proof fn lemma_update_light_values_idempotent<V>(state: Map<i32, UniformValue<V>>, light: Light<V>)
    ensures
        apply_writes(apply_writes(state, light_writes(light)), light_writes(light))
            == apply_writes(state, light_writes(light)),
{
    lemma_apply_writes_idempotent(state, light_writes(light));
}

/// Performing the same writes twice in a row leaves the uniforms as
/// performing them once does.
pub proof fn lemma_apply_writes_idempotent<V>(state: Map<i32, UniformValue<V>>, writes: Seq<UniformWrite<V>>)
    ensures
        apply_writes(apply_writes(state, writes), writes) == apply_writes(state, writes),
{
    let once = apply_writes(state, writes);
    let twice = apply_writes(once, writes);
    assert forall|k: i32| #[trigger] twice.contains_key(k) <==> once.contains_key(k) by {
        lemma_apply_writes_at(state, writes, k);
        lemma_apply_writes_at(once, writes, k);
    }
    assert forall|k: i32| #[trigger] twice.contains_key(k) implies twice[k] == once[k] by {
        lemma_apply_writes_at(state, writes, k);
        lemma_apply_writes_at(once, writes, k);
    }
    assert(twice =~= once);
}

} // verus!
