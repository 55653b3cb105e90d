//! Fixture model descriptions and their builders.
//!
//! A fixture model names the device, its manufacturer and the channel
//! modes it can run in; each mode lists operation modes, lights, movement
//! axes and custom controls.  Every description is assembled through a
//! builder whose `build` checks the required fields in one place.
//!
//! Types whose fields hold vectors come with a `same_*` spec function
//! saying that two values carry the same content; `clone` and `build`
//! promise their results in those terms, the remaining types are cloned
//! to equal values outright.

use vstd::prelude::*;

use crate::builders::error::BuildError;
use crate::dmx::types::Channel;
use crate::dmx::types::Color;
use crate::dmx::types::DMXAddress;
use crate::dmx::types::DMXRange;

verus! {

/// The display name of a fixture or of one of its controls, with an
/// optional icon path.
#[derive(Debug, PartialEq, Eq)]
pub struct FixtureName {
    pub name: String,
    pub icon: Option<String>,
}

impl FixtureName {
    /// A name without an icon.
    pub fn new(name: String) -> (r: Self)
        ensures
            r == (FixtureName { name, icon: None }),
    {
        FixtureName { name, icon: None }
    }

    /// A name together with the path of an icon.
    pub fn new_with_icon(name: String, icon: String) -> (r: Self)
        ensures
            r == (FixtureName { name, icon: Some(icon) }),
    {
        FixtureName { name, icon: Some(icon) }
    }

    /// Replaces the icon path.
    pub fn icon(&mut self, icon: &str) -> (r: &mut Self)
        ensures
            (*r).name == old(self).name,
            (*r).icon matches Some(p) && p@ == icon@,
            *final(self) == *final(r),
    {
        self.icon = Some(icon.to_owned());
        self
    }
}

impl Clone for FixtureName {
    fn clone(&self) -> (r: Self)
        ensures
            r == *self,
    {
        FixtureName {
            name: self.name.clone(),
            icon: match &self.icon {
                Some(p) => Some(p.clone()),
                None => None,
            },
        }
    }
}

impl From<String> for FixtureName {
    fn from(name: String) -> (r: Self)
        ensures
            r == (FixtureName { name, icon: None }),
    {
        FixtureName { name, icon: None }
    }
}

impl vstd::std_specs::convert::FromSpecImpl<String> for FixtureName {
    open spec fn obeys_from_spec() -> bool {
        true
    }

    open spec fn from_spec(name: String) -> FixtureName {
        FixtureName { name, icon: None }
    }
}

/// How one custom control of a fixture is operated.
#[derive(Debug)]
pub enum FixtureCustomOperation {
    Slider(FixtureName, DMXRange),
    Button(FixtureName, DMXAddress),
    Stepped(FixtureName, Vec<(FixtureName, DMXAddress)>),
}

/// Two custom operations with the same content.
pub open spec fn same_custom_op(a: FixtureCustomOperation, b: FixtureCustomOperation) -> bool {
    match (a, b) {
        (
            FixtureCustomOperation::Slider(n1, r1),
            FixtureCustomOperation::Slider(n2, r2),
        ) => n1 == n2 && r1 == r2,
        (
            FixtureCustomOperation::Button(n1, a1),
            FixtureCustomOperation::Button(n2, a2),
        ) => n1 == n2 && a1 == a2,
        (
            FixtureCustomOperation::Stepped(n1, s1),
            FixtureCustomOperation::Stepped(n2, s2),
        ) => n1 == n2 && s1@ == s2@,
        _ => false,
    }
}

/// Two sequences of custom operations with the same content.
pub open spec fn same_custom_ops(a: Seq<FixtureCustomOperation>, b: Seq<FixtureCustomOperation>) -> bool {
    a.len() == b.len() && forall|i: int| 0 <= i < a.len() ==> same_custom_op(a[i], b[i])
}

/// Two optional custom-operation lists with the same content.
pub open spec fn same_opt_custom_ops(
    a: Option<Vec<FixtureCustomOperation>>,
    b: Option<Vec<FixtureCustomOperation>>,
) -> bool {
    match (a, b) {
        (None, None) => true,
        (Some(x), Some(y)) => same_custom_ops(x@, y@),
        _ => false,
    }
}

fn clone_steps(v: &Vec<(FixtureName, DMXAddress)>) -> (r: Vec<(FixtureName, DMXAddress)>)
    ensures
        r@ == v@,
{
    let mut r: Vec<(FixtureName, DMXAddress)> = Vec::new();
    let mut i: usize = 0;
    while i < v.len()
        invariant
            i <= v.len(),
            r@.len() == i,
            forall|j: int| 0 <= j < i ==> r@[j] == v@[j],
        decreases v.len() - i,
    {
        let step = &v[i];
        r.push((step.0.clone(), step.1));
        i = i + 1;
    }
    proof {
        assert(r@ =~= v@);
    }
    r
}

impl Clone for FixtureCustomOperation {
    fn clone(&self) -> (r: Self)
        ensures
            same_custom_op(r, *self),
    {
        match self {
            FixtureCustomOperation::Slider(name, range) => FixtureCustomOperation::Slider(
                name.clone(),
                *range,
            ),
            FixtureCustomOperation::Button(name, address) => FixtureCustomOperation::Button(
                name.clone(),
                *address,
            ),
            FixtureCustomOperation::Stepped(name, steps) => FixtureCustomOperation::Stepped(
                name.clone(),
                clone_steps(steps),
            ),
        }
    }
}

fn clone_custom_ops(v: &Vec<FixtureCustomOperation>) -> (r: Vec<FixtureCustomOperation>)
    ensures
        same_custom_ops(r@, v@),
{
    let mut r: Vec<FixtureCustomOperation> = Vec::new();
    let mut i: usize = 0;
    while i < v.len()
        invariant
            i <= v.len(),
            r@.len() == i,
            forall|j: int| 0 <= j < i ==> same_custom_op(r@[j], v@[j]),
        decreases v.len() - i,
    {
        r.push(v[i].clone());
        i = i + 1;
    }
    r
}

/// Whether a fixture runs standalone, reacts to sound, or listens to DMX.
#[derive(Debug)]
pub enum OperationModeType {
    Off,
    On,
    Auto,
    SoundToLight,
    DMX(FixtureName),
}

impl Clone for OperationModeType {
    fn clone(&self) -> (r: Self)
        ensures
            r == *self,
    {
        match self {
            OperationModeType::Off => OperationModeType::Off,
            OperationModeType::On => OperationModeType::On,
            OperationModeType::Auto => OperationModeType::Auto,
            OperationModeType::SoundToLight => OperationModeType::SoundToLight,
            OperationModeType::DMX(name) => OperationModeType::DMX(name.clone()),
        }
    }
}

/// One way a fixture can be operated in a channel mode: its kind, the
/// address that selects it, and its sub-controls.
#[derive(Debug)]
pub struct FixtureOperationMode {
    pub mode_type: OperationModeType,
    pub address: Option<DMXAddress>,
    pub submodes: Vec<FixtureCustomOperation>,
}

/// Two operation modes with the same content.
pub open spec fn same_operation_mode(a: FixtureOperationMode, b: FixtureOperationMode) -> bool {
    a.mode_type == b.mode_type && a.address == b.address && same_custom_ops(a.submodes@, b.submodes@)
}

/// Two sequences of operation modes with the same content.
pub open spec fn same_operation_modes(a: Seq<FixtureOperationMode>, b: Seq<FixtureOperationMode>) -> bool {
    a.len() == b.len() && forall|i: int| 0 <= i < a.len() ==> same_operation_mode(a[i], b[i])
}

impl FixtureOperationMode {
    pub fn builder() -> (r: FixtureOperationModeBuilder)
        ensures
            r.mode_type is None,
            r.address is None,
            r.submodes@ == Seq::<FixtureCustomOperation>::empty(),
    {
        FixtureOperationModeBuilder::default()
    }

    pub fn new(
        mode_type: OperationModeType,
        address: Option<DMXAddress>,
        submodes: Vec<FixtureCustomOperation>,
    ) -> (r: Self)
        ensures
            r == (FixtureOperationMode { mode_type, address, submodes }),
    {
        Self { mode_type, address, submodes }
    }
}

impl Clone for FixtureOperationMode {
    fn clone(&self) -> (r: Self)
        ensures
            same_operation_mode(r, *self),
    {
        FixtureOperationMode {
            mode_type: self.mode_type.clone(),
            address: self.address,
            submodes: clone_custom_ops(&self.submodes),
        }
    }
}

fn clone_operation_modes(v: &Vec<FixtureOperationMode>) -> (r: Vec<FixtureOperationMode>)
    ensures
        same_operation_modes(r@, v@),
{
    let mut r: Vec<FixtureOperationMode> = Vec::new();
    let mut i: usize = 0;
    while i < v.len()
        invariant
            i <= v.len(),
            r@.len() == i,
            forall|j: int| 0 <= j < i ==> same_operation_mode(r@[j], v@[j]),
        decreases v.len() - i,
    {
        r.push(v[i].clone());
        i = i + 1;
    }
    r
}

/// Builds a `FixtureOperationMode`; `mode_type` is required, and at
/// least one of an address or a sub-control must be given.
#[derive(Debug)]
pub struct FixtureOperationModeBuilder {
    pub mode_type: Option<OperationModeType>,
    pub address: Option<DMXAddress>,
    pub submodes: Vec<FixtureCustomOperation>,
}

impl Default for FixtureOperationModeBuilder {
    fn default() -> (r: Self)
        ensures
            r.mode_type is None,
            r.address is None,
            r.submodes@ == Seq::<FixtureCustomOperation>::empty(),
    {
        FixtureOperationModeBuilder { mode_type: None, address: None, submodes: Vec::new() }
    }
}

impl FixtureOperationModeBuilder {
    pub fn new() -> (r: Self)
        ensures
            r.mode_type is None,
            r.address is None,
            r.submodes@ == Seq::<FixtureCustomOperation>::empty(),
    {
        Self::default()
    }

    pub fn mode_type(&mut self, mode_type: OperationModeType) -> (r: &mut Self)
        ensures
            *r == (FixtureOperationModeBuilder { mode_type: Some(mode_type), ..*old(self) }),
            *final(self) == *final(r),
    {
        self.mode_type = Some(mode_type);
        self
    }

    pub fn address(&mut self, address: DMXAddress) -> (r: &mut Self)
        ensures
            *r == (FixtureOperationModeBuilder { address: Some(address), ..*old(self) }),
            *final(self) == *final(r),
    {
        self.address = Some(address);
        self
    }

    pub fn submode(&mut self, submode: FixtureCustomOperation) -> (r: &mut Self)
        ensures
            (*r).mode_type == old(self).mode_type,
            (*r).address == old(self).address,
            (*r).submodes@ == old(self).submodes@.push(submode),
            *final(self) == *final(r),
    {
        self.submodes.push(submode);
        self
    }

    /// Rejects a missing `mode_type`, and a mode with neither an address
    /// nor a sub-control; otherwise hands out the finished mode.
    pub fn build(&mut self) -> (r: Result<FixtureOperationMode, BuildError>)
        ensures
            *final(self) == *old(self),
            old(self).mode_type is None ==> r == Err::<FixtureOperationMode, BuildError>(
                BuildError::MissingField("mode_type"),
            ),
            old(self).mode_type is Some && old(self).address is None && old(self).submodes@.len()
                == 0 ==> r == Err::<FixtureOperationMode, BuildError>(
                BuildError::MissingField("address or submodes"),
            ),
            (old(self).mode_type is Some && !(old(self).address is None && old(
                self,
            ).submodes@.len() == 0)) ==> (r matches Ok(m) && m.mode_type == old(
                self,
            ).mode_type->0 && m.address == old(self).address && same_custom_ops(
                m.submodes@,
                old(self).submodes@,
            )),
    {
        match &self.mode_type {
            None => Err(BuildError::MissingField("mode_type")),
            Some(mode_type) => {
                if self.address.is_none() && self.submodes.len() == 0 {
                    return Err(BuildError::MissingField("address or submodes"));
                }
                Ok(FixtureOperationMode {
                    mode_type: mode_type.clone(),
                    address: self.address,
                    submodes: clone_custom_ops(&self.submodes),
                })
            },
        }
    }
}

/// A color a light of a fixture can mix, and the bus ranges that drive it.
#[derive(Debug)]
pub enum FixtureColorMode {
    Presets(Vec<(Color, DMXAddress)>),
    RGB(DMXRange, DMXRange, DMXRange),
    RGBW(DMXRange, DMXRange, DMXRange, DMXRange),
    CMY(DMXRange, DMXRange, DMXRange),
    CMYW(DMXRange, DMXRange, DMXRange, DMXRange),
    RgbTrailingChannels(DMXRange),
    RgbwTrailingChannels(DMXRange),
    CmyTrailingChannels(DMXRange),
    CmywTrailingChannels(DMXRange),
    Custom(String, Vec<DMXRange>),
}

/// Two color modes with the same content.
pub open spec fn same_color_mode(a: FixtureColorMode, b: FixtureColorMode) -> bool {
    match (a, b) {
        (FixtureColorMode::Presets(p1), FixtureColorMode::Presets(p2)) => p1@ == p2@,
        (FixtureColorMode::RGB(r1, g1, b1), FixtureColorMode::RGB(r2, g2, b2)) => r1 == r2 && g1
            == g2 && b1 == b2,
        (
            FixtureColorMode::RGBW(r1, g1, b1, w1),
            FixtureColorMode::RGBW(r2, g2, b2, w2),
        ) => r1 == r2 && g1 == g2 && b1 == b2 && w1 == w2,
        (FixtureColorMode::CMY(c1, m1, y1), FixtureColorMode::CMY(c2, m2, y2)) => c1 == c2 && m1
            == m2 && y1 == y2,
        (
            FixtureColorMode::CMYW(c1, m1, y1, w1),
            FixtureColorMode::CMYW(c2, m2, y2, w2),
        ) => c1 == c2 && m1 == m2 && y1 == y2 && w1 == w2,
        (
            FixtureColorMode::RgbTrailingChannels(r1),
            FixtureColorMode::RgbTrailingChannels(r2),
        ) => r1 == r2,
        (
            FixtureColorMode::RgbwTrailingChannels(r1),
            FixtureColorMode::RgbwTrailingChannels(r2),
        ) => r1 == r2,
        (
            FixtureColorMode::CmyTrailingChannels(r1),
            FixtureColorMode::CmyTrailingChannels(r2),
        ) => r1 == r2,
        (
            FixtureColorMode::CmywTrailingChannels(r1),
            FixtureColorMode::CmywTrailingChannels(r2),
        ) => r1 == r2,
        (FixtureColorMode::Custom(n1, rs1), FixtureColorMode::Custom(n2, rs2)) => n1 == n2 && rs1@
            == rs2@,
        _ => false,
    }
}

fn clone_presets(v: &Vec<(Color, DMXAddress)>) -> (r: Vec<(Color, DMXAddress)>)
    ensures
        r@ == v@,
{
    let mut r: Vec<(Color, DMXAddress)> = Vec::new();
    let mut i: usize = 0;
    while i < v.len()
        invariant
            i <= v.len(),
            r@.len() == i,
            forall|j: int| 0 <= j < i ==> r@[j] == v@[j],
        decreases v.len() - i,
    {
        let preset = &v[i];
        r.push((preset.0.clone(), preset.1));
        i = i + 1;
    }
    proof {
        assert(r@ =~= v@);
    }
    r
}

fn clone_ranges(v: &Vec<DMXRange>) -> (r: Vec<DMXRange>)
    ensures
        r@ == v@,
{
    let mut r: Vec<DMXRange> = Vec::new();
    let mut i: usize = 0;
    while i < v.len()
        invariant
            i <= v.len(),
            r@.len() == i,
            forall|j: int| 0 <= j < i ==> r@[j] == v@[j],
        decreases v.len() - i,
    {
        r.push(v[i]);
        i = i + 1;
    }
    proof {
        assert(r@ =~= v@);
    }
    r
}

impl Clone for FixtureColorMode {
    fn clone(&self) -> (r: Self)
        ensures
            same_color_mode(r, *self),
    {
        match self {
            FixtureColorMode::Presets(presets) => FixtureColorMode::Presets(clone_presets(presets)),
            FixtureColorMode::RGB(r, g, b) => FixtureColorMode::RGB(*r, *g, *b),
            FixtureColorMode::RGBW(r, g, b, w) => FixtureColorMode::RGBW(*r, *g, *b, *w),
            FixtureColorMode::CMY(c, m, y) => FixtureColorMode::CMY(*c, *m, *y),
            FixtureColorMode::CMYW(c, m, y, w) => FixtureColorMode::CMYW(*c, *m, *y, *w),
            FixtureColorMode::RgbTrailingChannels(r) => FixtureColorMode::RgbTrailingChannels(*r),
            FixtureColorMode::RgbwTrailingChannels(r) => FixtureColorMode::RgbwTrailingChannels(*r),
            FixtureColorMode::CmyTrailingChannels(r) => FixtureColorMode::CmyTrailingChannels(*r),
            FixtureColorMode::CmywTrailingChannels(r) => FixtureColorMode::CmywTrailingChannels(*r),
            FixtureColorMode::Custom(name, ranges) => FixtureColorMode::Custom(
                name.clone(),
                clone_ranges(ranges),
            ),
        }
    }
}

/// One light of a fixture: how it mixes color, and the range that dims it.
#[derive(Debug)]
pub struct FixtureLights {
    pub color_mode: FixtureColorMode,
    pub dimmer: Option<DMXRange>,
}

/// Two lights with the same content.
pub open spec fn same_lights(a: FixtureLights, b: FixtureLights) -> bool {
    same_color_mode(a.color_mode, b.color_mode) && a.dimmer == b.dimmer
}

/// Two sequences of lights with the same content.
pub open spec fn same_lights_seq(a: Seq<FixtureLights>, b: Seq<FixtureLights>) -> bool {
    a.len() == b.len() && forall|i: int| 0 <= i < a.len() ==> same_lights(a[i], b[i])
}

impl FixtureLights {
    pub fn new(color_mode: FixtureColorMode, dimmer: Option<DMXRange>) -> (r: Self)
        ensures
            r == (FixtureLights { color_mode, dimmer }),
    {
        Self { color_mode, dimmer }
    }
}

impl Clone for FixtureLights {
    fn clone(&self) -> (r: Self)
        ensures
            same_lights(r, *self),
    {
        FixtureLights { color_mode: self.color_mode.clone(), dimmer: self.dimmer }
    }
}

fn clone_lights_row(v: &Vec<FixtureLights>) -> (r: Vec<FixtureLights>)
    ensures
        same_lights_seq(r@, v@),
{
    let mut r: Vec<FixtureLights> = Vec::new();
    let mut i: usize = 0;
    while i < v.len()
        invariant
            i <= v.len(),
            r@.len() == i,
            forall|j: int| 0 <= j < i ==> same_lights(r@[j], v@[j]),
        decreases v.len() - i,
    {
        r.push(v[i].clone());
        i = i + 1;
    }
    r
}

/// A rectangular arrangement of a fixture's lights, row by row.
#[derive(Debug)]
pub struct FixtureMatrix {
    pub matrix: Vec<Vec<FixtureLights>>,
}

/// Two sequences of light rows with the same content.
pub open spec fn same_light_rows(a: Seq<Vec<FixtureLights>>, b: Seq<Vec<FixtureLights>>) -> bool {
    a.len() == b.len() && forall|i: int| 0 <= i < a.len() ==> same_lights_seq(a[i]@, b[i]@)
}

/// Two matrices with the same content.
pub open spec fn same_matrix(a: FixtureMatrix, b: FixtureMatrix) -> bool {
    same_light_rows(a.matrix@, b.matrix@)
}

/// Two optional matrices with the same content.
pub open spec fn same_opt_matrix(a: Option<FixtureMatrix>, b: Option<FixtureMatrix>) -> bool {
    match (a, b) {
        (None, None) => true,
        (Some(x), Some(y)) => same_matrix(x, y),
        _ => false,
    }
}

impl FixtureMatrix {
    pub fn new(matrix: Vec<Vec<FixtureLights>>) -> (r: Self)
        ensures
            r == (FixtureMatrix { matrix }),
    {
        Self { matrix }
    }

    pub fn builder() -> (r: FixtureMatrixBuilder)
        ensures
            r.matrix@ == Seq::<Vec<FixtureLights>>::empty(),
    {
        FixtureMatrixBuilder::default()
    }
}

impl Clone for FixtureMatrix {
    fn clone(&self) -> (r: Self)
        ensures
            same_matrix(r, *self),
    {
        let mut rows: Vec<Vec<FixtureLights>> = Vec::new();
        let mut i: usize = 0;
        while i < self.matrix.len()
            invariant
                i <= self.matrix.len(),
                rows@.len() == i,
                forall|j: int| 0 <= j < i ==> same_lights_seq(rows@[j]@, self.matrix@[j]@),
            decreases self.matrix.len() - i,
        {
            rows.push(clone_lights_row(&self.matrix[i]));
            i = i + 1;
        }
        FixtureMatrix { matrix: rows }
    }
}

/// Builds a `FixtureMatrix` row by row; at least one row is required.
#[derive(Debug)]
pub struct FixtureMatrixBuilder {
    pub matrix: Vec<Vec<FixtureLights>>,
}

impl Default for FixtureMatrixBuilder {
    fn default() -> (r: Self)
        ensures
            r.matrix@ == Seq::<Vec<FixtureLights>>::empty(),
    {
        FixtureMatrixBuilder { matrix: Vec::new() }
    }
}

impl FixtureMatrixBuilder {
    pub fn new() -> (r: Self)
        ensures
            r.matrix@ == Seq::<Vec<FixtureLights>>::empty(),
    {
        Self::default()
    }

    pub fn row(&mut self, row: Vec<FixtureLights>) -> (r: &mut Self)
        ensures
            (*r).matrix@ == old(self).matrix@.push(row),
            *final(self) == *final(r),
    {
        self.matrix.push(row);
        self
    }

    /// Rejects an empty matrix; otherwise hands out the finished matrix.
    pub fn build(&self) -> (r: Result<FixtureMatrix, BuildError>)
        ensures
            self.matrix@.len() == 0 ==> r == Err::<FixtureMatrix, BuildError>(
                BuildError::MissingField("matrix"),
            ),
            self.matrix@.len() > 0 ==> (r matches Ok(m) && same_light_rows(
                m.matrix@,
                self.matrix@,
            )),
    {
        if self.matrix.len() == 0 {
            return Err(BuildError::MissingField("matrix"));
        }
        let mut rows: Vec<Vec<FixtureLights>> = Vec::new();
        let mut i: usize = 0;
        while i < self.matrix.len()
            invariant
                i <= self.matrix.len(),
                rows@.len() == i,
                forall|j: int| 0 <= j < i ==> same_lights_seq(rows@[j]@, self.matrix@[j]@),
            decreases self.matrix.len() - i,
        {
            rows.push(clone_lights_row(&self.matrix[i]));
            i = i + 1;
        }
        Ok(FixtureMatrix { matrix: rows })
    }
}

/// One movement axis of a fixture: the range that drives it and the
/// address that resets it.
#[derive(Debug, Clone, Copy)]
pub struct MovementAxis {
    pub range: DMXRange,
    pub reset: Option<DMXAddress>,
}

impl MovementAxis {
    pub fn new(range: DMXRange, reset: Option<DMXAddress>) -> (r: Self)
        ensures
            r == (MovementAxis { range, reset }),
    {
        Self { range, reset }
    }
}

/// The movement abilities of a fixture head.
#[derive(Debug, Clone, Copy)]
pub struct FixtureMovement {
    pub pan: Option<MovementAxis>,
    pub tilt: Option<MovementAxis>,
}

impl Default for FixtureMovement {
    fn default() -> (r: Self)
        ensures
            r == (FixtureMovement { pan: None, tilt: None }),
    {
        FixtureMovement { pan: None, tilt: None }
    }
}

impl FixtureMovement {
    pub fn builder() -> (r: FixtureMovementBuilder)
        ensures
            r == (FixtureMovementBuilder { pan: None, tilt: None }),
    {
        FixtureMovementBuilder::default()
    }
}

/// Builds a `FixtureMovement`; both axes are optional.
#[derive(Debug)]
pub struct FixtureMovementBuilder {
    pub pan: Option<MovementAxis>,
    pub tilt: Option<MovementAxis>,
}

impl Default for FixtureMovementBuilder {
    fn default() -> (r: Self)
        ensures
            r == (FixtureMovementBuilder { pan: None, tilt: None }),
    {
        FixtureMovementBuilder { pan: None, tilt: None }
    }
}

impl FixtureMovementBuilder {
    pub fn new() -> (r: Self)
        ensures
            r == (FixtureMovementBuilder { pan: None, tilt: None }),
    {
        Self::default()
    }

    pub fn pan(&mut self, pan: MovementAxis) -> (r: &mut Self)
        ensures
            *r == (FixtureMovementBuilder { pan: Some(pan), ..*old(self) }),
            *final(self) == *final(r),
    {
        self.pan = Some(pan);
        self
    }

    pub fn tilt(&mut self, tilt: MovementAxis) -> (r: &mut Self)
        ensures
            *r == (FixtureMovementBuilder { tilt: Some(tilt), ..*old(self) }),
            *final(self) == *final(r),
    {
        self.tilt = Some(tilt);
        self
    }

    pub fn build(&self) -> (r: Result<FixtureMovement, BuildError>)
        ensures
            r == Ok::<FixtureMovement, BuildError>(
                FixtureMovement { pan: self.pan, tilt: self.tilt },
            ),
    {
        Ok(FixtureMovement { pan: self.pan, tilt: self.tilt })
    }
}

/// The zoom ability of a fixture: the range that drives it and the
/// address that resets it.
#[derive(Debug, Clone, Copy)]
pub struct FixtureZoom {
    pub range: DMXRange,
    pub reset: Option<DMXAddress>,
}

impl FixtureZoom {
    pub fn new(range: DMXRange, reset: Option<DMXAddress>) -> (r: Self)
        ensures
            r == (FixtureZoom { range, reset }),
    {
        Self { range, reset }
    }
}

/// One channel mode a fixture can run in: how many channels it listens
/// to and what each group of them controls.
#[derive(Debug)]
pub struct FixtureChannelMode {
    pub total_channels: Channel,
    pub operation_modes: Vec<FixtureOperationMode>,
    pub movement: Option<FixtureMovement>,
    pub lights: Option<FixtureMatrix>,
    pub name: Option<FixtureName>,
    pub zoom: Option<FixtureZoom>,
    pub custom: Option<Vec<FixtureCustomOperation>>,
}

/// Two channel modes with the same content.
pub open spec fn same_channel_mode(a: FixtureChannelMode, b: FixtureChannelMode) -> bool {
    &&& a.total_channels == b.total_channels
    &&& same_operation_modes(a.operation_modes@, b.operation_modes@)
    &&& a.movement == b.movement
    &&& same_opt_matrix(a.lights, b.lights)
    &&& a.name == b.name
    &&& a.zoom == b.zoom
    &&& same_opt_custom_ops(a.custom, b.custom)
}

/// Two sequences of channel modes with the same content.
pub open spec fn same_channel_modes(a: Seq<FixtureChannelMode>, b: Seq<FixtureChannelMode>) -> bool {
    a.len() == b.len() && forall|i: int| 0 <= i < a.len() ==> same_channel_mode(a[i], b[i])
}

impl FixtureChannelMode {
    pub fn builder() -> (r: FixtureChannelModeBuilder)
        ensures
            r.total_channels is None,
            r.operation_modes@ == Seq::<FixtureOperationMode>::empty(),
            r.lights is None,
            r.name is None,
            r.movement is None,
            r.zoom is None,
            r.custom is None,
    {
        FixtureChannelModeBuilder::default()
    }
}

impl Clone for FixtureChannelMode {
    fn clone(&self) -> (r: Self)
        ensures
            same_channel_mode(r, *self),
    {
        FixtureChannelMode {
            total_channels: self.total_channels,
            operation_modes: clone_operation_modes(&self.operation_modes),
            movement: self.movement,
            lights: match &self.lights {
                Some(m) => Some(m.clone()),
                None => None,
            },
            name: match &self.name {
                Some(n) => Some(n.clone()),
                None => None,
            },
            zoom: self.zoom,
            custom: match &self.custom {
                Some(ops) => Some(clone_custom_ops(ops)),
                None => None,
            },
        }
    }
}

fn clone_channel_modes(v: &Vec<FixtureChannelMode>) -> (r: Vec<FixtureChannelMode>)
    ensures
        same_channel_modes(r@, v@),
{
    let mut r: Vec<FixtureChannelMode> = Vec::new();
    let mut i: usize = 0;
    while i < v.len()
        invariant
            i <= v.len(),
            r@.len() == i,
            forall|j: int| 0 <= j < i ==> same_channel_mode(r@[j], v@[j]),
        decreases v.len() - i,
    {
        r.push(v[i].clone());
        i = i + 1;
    }
    r
}

/// Builds a `FixtureChannelMode`; only `total_channels` is required.
#[derive(Debug)]
pub struct FixtureChannelModeBuilder {
    pub total_channels: Option<Channel>,
    pub operation_modes: Vec<FixtureOperationMode>,
    pub lights: Option<FixtureMatrix>,
    pub name: Option<FixtureName>,
    pub movement: Option<FixtureMovement>,
    pub zoom: Option<FixtureZoom>,
    pub custom: Option<Vec<FixtureCustomOperation>>,
}

impl Default for FixtureChannelModeBuilder {
    fn default() -> (r: Self)
        ensures
            r.total_channels is None,
            r.operation_modes@ == Seq::<FixtureOperationMode>::empty(),
            r.lights is None,
            r.name is None,
            r.movement is None,
            r.zoom is None,
            r.custom is None,
    {
        FixtureChannelModeBuilder {
            total_channels: None,
            operation_modes: Vec::new(),
            lights: None,
            name: None,
            movement: None,
            zoom: None,
            custom: None,
        }
    }
}

impl FixtureChannelModeBuilder {
    pub fn new() -> (r: Self)
        ensures
            r.total_channels is None,
            r.operation_modes@ == Seq::<FixtureOperationMode>::empty(),
            r.lights is None,
            r.name is None,
            r.movement is None,
            r.zoom is None,
            r.custom is None,
    {
        Self::default()
    }

    pub fn total_channels(&mut self, total_channels: Channel) -> (r: &mut Self)
        ensures
            (*r).total_channels == Some(total_channels),
            (*r).operation_modes == old(self).operation_modes,
            (*r).lights == old(self).lights,
            (*r).name == old(self).name,
            (*r).movement == old(self).movement,
            (*r).zoom == old(self).zoom,
            (*r).custom == old(self).custom,
            *final(self) == *final(r),
    {
        self.total_channels = Some(total_channels);
        self
    }

    pub fn operation_mode(&mut self, operation_mode: FixtureOperationMode) -> (r: &mut Self)
        ensures
            (*r).total_channels == old(self).total_channels,
            (*r).operation_modes@ == old(self).operation_modes@.push(operation_mode),
            (*r).lights == old(self).lights,
            (*r).name == old(self).name,
            (*r).movement == old(self).movement,
            (*r).zoom == old(self).zoom,
            (*r).custom == old(self).custom,
            *final(self) == *final(r),
    {
        self.operation_modes.push(operation_mode);
        self
    }

    /// Places a single light as the whole light arrangement.
    pub fn lights(&mut self, lights: FixtureLights) -> (r: &mut Self)
        ensures
            (*r).total_channels == old(self).total_channels,
            (*r).operation_modes == old(self).operation_modes,
            (*r).lights matches Some(m) && m.matrix@.len() == 1 && m.matrix@[0]@ == seq![lights],
            (*r).name == old(self).name,
            (*r).movement == old(self).movement,
            (*r).zoom == old(self).zoom,
            (*r).custom == old(self).custom,
            *final(self) == *final(r),
    {
        self.lights = Some(FixtureMatrix::new(vec![vec![lights]]));
        self
    }

    pub fn matrix(&mut self, matrix: FixtureMatrix) -> (r: &mut Self)
        ensures
            (*r).total_channels == old(self).total_channels,
            (*r).operation_modes == old(self).operation_modes,
            (*r).lights == Some(matrix),
            (*r).name == old(self).name,
            (*r).movement == old(self).movement,
            (*r).zoom == old(self).zoom,
            (*r).custom == old(self).custom,
            *final(self) == *final(r),
    {
        self.lights = Some(matrix);
        self
    }

    pub fn name(&mut self, name: FixtureName) -> (r: &mut Self)
        ensures
            (*r).total_channels == old(self).total_channels,
            (*r).operation_modes == old(self).operation_modes,
            (*r).lights == old(self).lights,
            (*r).name == Some(name),
            (*r).movement == old(self).movement,
            (*r).zoom == old(self).zoom,
            (*r).custom == old(self).custom,
            *final(self) == *final(r),
    {
        self.name = Some(name);
        self
    }

    pub fn movement(&mut self, movement: FixtureMovement) -> (r: &mut Self)
        ensures
            (*r).total_channels == old(self).total_channels,
            (*r).operation_modes == old(self).operation_modes,
            (*r).lights == old(self).lights,
            (*r).name == old(self).name,
            (*r).movement == Some(movement),
            (*r).zoom == old(self).zoom,
            (*r).custom == old(self).custom,
            *final(self) == *final(r),
    {
        self.movement = Some(movement);
        self
    }

    pub fn zoom(&mut self, zoom: FixtureZoom) -> (r: &mut Self)
        ensures
            (*r).total_channels == old(self).total_channels,
            (*r).operation_modes == old(self).operation_modes,
            (*r).lights == old(self).lights,
            (*r).name == old(self).name,
            (*r).movement == old(self).movement,
            (*r).zoom == Some(zoom),
            (*r).custom == old(self).custom,
            *final(self) == *final(r),
    {
        self.zoom = Some(zoom);
        self
    }

    /// Appends one custom control, starting the list on its first use.
    pub fn custom(&mut self, custom: FixtureCustomOperation) -> (r: &mut Self)
        ensures
            (*r).total_channels == old(self).total_channels,
            (*r).operation_modes == old(self).operation_modes,
            (*r).lights == old(self).lights,
            (*r).name == old(self).name,
            (*r).movement == old(self).movement,
            (*r).zoom == old(self).zoom,
            old(self).custom is None ==> ((*r).custom matches Some(v) && v@ == seq![custom]),
            old(self).custom matches Some(ov) ==> ((*r).custom matches Some(v) && v@ == ov@.push(
                custom,
            )),
            *final(self) == *final(r),
    {
        match &mut self.custom {
            Some(ops) => {
                ops.push(custom);
            },
            None => {
                let mut ops: Vec<FixtureCustomOperation> = Vec::new();
                ops.push(custom);
                proof {
                    assert(ops@ =~= seq![custom]);
                }
                self.custom = Some(ops);
            },
        }
        self
    }

    /// Rejects a missing `total_channels`; otherwise hands out the
    /// finished channel mode.
    pub fn build(&self) -> (r: Result<FixtureChannelMode, BuildError>)
        ensures
            self.total_channels is None ==> r == Err::<FixtureChannelMode, BuildError>(
                BuildError::MissingField("total_channels"),
            ),
            self.total_channels matches Some(tc) ==> (r matches Ok(m) && m.total_channels == tc
                && same_operation_modes(m.operation_modes@, self.operation_modes@)
                && same_opt_matrix(m.lights, self.lights) && m.name == self.name && m.movement
                == self.movement && m.zoom == self.zoom && same_opt_custom_ops(
                m.custom,
                self.custom,
            )),
    {
        match &self.total_channels {
            None => Err(BuildError::MissingField("total_channels")),
            Some(total_channels) => Ok(
                FixtureChannelMode {
                    total_channels: *total_channels,
                    operation_modes: clone_operation_modes(&self.operation_modes),
                    lights: match &self.lights {
                        Some(m) => Some(m.clone()),
                        None => None,
                    },
                    name: match &self.name {
                        Some(n) => Some(n.clone()),
                        None => None,
                    },
                    movement: self.movement,
                    zoom: self.zoom,
                    custom: match &self.custom {
                        Some(ops) => Some(clone_custom_ops(ops)),
                        None => None,
                    },
                },
            ),
        }
    }
}

/// A complete fixture model: its name, its manufacturer, and the channel
/// modes it can run in.
#[derive(Debug)]
pub struct FixtureModel {
    pub name: FixtureName,
    pub manufacturer: String,
    pub channel_modes: Vec<FixtureChannelMode>,
}

/// Two fixture models with the same content.
pub open spec fn same_fixture_model(a: FixtureModel, b: FixtureModel) -> bool {
    a.name == b.name && a.manufacturer == b.manufacturer && same_channel_modes(
        a.channel_modes@,
        b.channel_modes@,
    )
}

impl FixtureModel {
    pub fn builder() -> (r: FixtureModelBuilder)
        ensures
            r.name is None,
            r.manufacturer is None,
            r.channel_modes@ == Seq::<FixtureChannelMode>::empty(),
    {
        FixtureModelBuilder::default()
    }
}

impl Clone for FixtureModel {
    fn clone(&self) -> (r: Self)
        ensures
            same_fixture_model(r, *self),
    {
        FixtureModel {
            name: self.name.clone(),
            manufacturer: self.manufacturer.clone(),
            channel_modes: clone_channel_modes(&self.channel_modes),
        }
    }
}

/// Builds a `FixtureModel`; the name, the manufacturer and at least one
/// channel mode are required.
#[derive(Debug)]
pub struct FixtureModelBuilder {
    pub name: Option<FixtureName>,
    pub manufacturer: Option<String>,
    pub channel_modes: Vec<FixtureChannelMode>,
}

impl Default for FixtureModelBuilder {
    fn default() -> (r: Self)
        ensures
            r.name is None,
            r.manufacturer is None,
            r.channel_modes@ == Seq::<FixtureChannelMode>::empty(),
    {
        FixtureModelBuilder { name: None, manufacturer: None, channel_modes: Vec::new() }
    }
}

impl FixtureModelBuilder {
    pub fn new() -> (r: Self)
        ensures
            r.name is None,
            r.manufacturer is None,
            r.channel_modes@ == Seq::<FixtureChannelMode>::empty(),
    {
        Self::default()
    }

    pub fn model(&mut self, name: FixtureName) -> (r: &mut Self)
        ensures
            (*r).name == Some(name),
            (*r).manufacturer == old(self).manufacturer,
            (*r).channel_modes == old(self).channel_modes,
            *final(self) == *final(r),
    {
        self.name = Some(name);
        self
    }

    pub fn manufacturer(&mut self, manufacturer: String) -> (r: &mut Self)
        ensures
            (*r).name == old(self).name,
            (*r).manufacturer == Some(manufacturer),
            (*r).channel_modes == old(self).channel_modes,
            *final(self) == *final(r),
    {
        self.manufacturer = Some(manufacturer);
        self
    }

    pub fn channel_mode(&mut self, channel_mode: FixtureChannelMode) -> (r: &mut Self)
        ensures
            (*r).name == old(self).name,
            (*r).manufacturer == old(self).manufacturer,
            (*r).channel_modes@ == old(self).channel_modes@.push(channel_mode),
            *final(self) == *final(r),
    {
        self.channel_modes.push(channel_mode);
        self
    }

    /// Rejects a missing name or manufacturer and an empty mode list, in
    /// that order; otherwise hands out the finished model.
    pub fn build(&self) -> (r: Result<FixtureModel, BuildError>)
        ensures
            self.name is None ==> r == Err::<FixtureModel, BuildError>(
                BuildError::MissingField("name"),
            ),
            self.name is Some && self.manufacturer is None ==> r == Err::<FixtureModel, BuildError>(
                BuildError::MissingField("manufacturer"),
            ),
            self.name is Some && self.manufacturer is Some && self.channel_modes@.len() == 0 ==> r
                == Err::<FixtureModel, BuildError>(BuildError::EmptyField("channel_modes")),
            (self.name is Some && self.manufacturer is Some && self.channel_modes@.len() > 0) ==> (
            r matches Ok(m) && m.name == self.name->0 && m.manufacturer == self.manufacturer->0
                && same_channel_modes(m.channel_modes@, self.channel_modes@)),
    {
        match (&self.name, &self.manufacturer) {
            (None, _) => Err(BuildError::MissingField("name")),
            (Some(_), None) => Err(BuildError::MissingField("manufacturer")),
            (Some(name), Some(manufacturer)) => {
                if self.channel_modes.len() == 0 {
                    return Err(BuildError::EmptyField("channel_modes"));
                }
                Ok(FixtureModel {
                    name: name.clone(),
                    manufacturer: manufacturer.clone(),
                    channel_modes: clone_channel_modes(&self.channel_modes),
                })
            },
        }
    }
}

} // verus!
