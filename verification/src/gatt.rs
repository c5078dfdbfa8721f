//! The GATT inventory walk and the notify-characteristic finder.
//!
//! The BLE host hands the unverified shell the service tree of a connected
//! device; the shell snapshots it into the plain records below (a `None`
//! child list records that the host failed to enumerate that level) and the
//! functions here do all the deciding: assigned-number extraction, the
//! depth-first inventory with its per-node diagnostics, and the search for
//! the first characteristic that can notify.

use vstd::prelude::*;
use vstd::utf8::{decode_utf8, valid_utf8};

use crate::CoreError;
use crate::text::utf8_string;
use crate::uuid::{assigned_number, is_canonical_uuid, lower_seq};

verus! {

/// A descriptor as fetched from the host: its UUID text and its read value.
pub struct GattDescriptor {
    pub path: String,
    pub uuid: String,
    pub value: Vec<u8>,
}

/// A characteristic as fetched from the host.  `descriptors` is `None` when
/// the host failed to list the descriptors.
pub struct GattCharacteristic {
    pub path: String,
    pub uuid: String,
    pub flags: Vec<String>,
    pub descriptors: Option<Vec<GattDescriptor>>,
}

/// A service as fetched from the host.  `characteristics` is `None` when the
/// host failed to list the characteristics.
pub struct GattService {
    pub path: String,
    pub uuid: String,
    pub characteristics: Option<Vec<GattCharacteristic>>,
}

/// Mathematical content of a [`GattDescriptor`].
pub struct GattDescriptorV {
    pub path: Seq<char>,
    pub uuid: Seq<char>,
    pub value: Seq<u8>,
}

/// Mathematical content of a [`GattCharacteristic`].
pub struct GattCharacteristicV {
    pub path: Seq<char>,
    pub uuid: Seq<char>,
    pub flags: Seq<Seq<char>>,
    pub descriptors: Option<Seq<GattDescriptorV>>,
}

/// Mathematical content of a [`GattService`].
pub struct GattServiceV {
    pub path: Seq<char>,
    pub uuid: Seq<char>,
    pub characteristics: Option<Seq<GattCharacteristicV>>,
}

impl View for GattDescriptor {
    type V = GattDescriptorV;

    open spec fn view(&self) -> GattDescriptorV {
        GattDescriptorV { path: self.path@, uuid: self.uuid@, value: self.value@ }
    }
}

/// View of a flag list.
pub open spec fn flags_view(v: Seq<String>) -> Seq<Seq<char>> {
    v.map_values(|f: String| f@)
}

/// View of a descriptor list.
pub open spec fn descs_view(v: Seq<GattDescriptor>) -> Seq<GattDescriptorV> {
    v.map_values(|d: GattDescriptor| d@)
}

impl View for GattCharacteristic {
    type V = GattCharacteristicV;

    open spec fn view(&self) -> GattCharacteristicV {
        GattCharacteristicV {
            path: self.path@,
            uuid: self.uuid@,
            flags: flags_view(self.flags@),
            descriptors: match self.descriptors {
                Some(ds) => Some(descs_view(ds@)),
                None => None,
            },
        }
    }
}

/// View of a characteristic list.
pub open spec fn chars_view(v: Seq<GattCharacteristic>) -> Seq<GattCharacteristicV> {
    v.map_values(|c: GattCharacteristic| c@)
}

impl View for GattService {
    type V = GattServiceV;

    open spec fn view(&self) -> GattServiceV {
        GattServiceV {
            path: self.path@,
            uuid: self.uuid@,
            characteristics: match self.characteristics {
                Some(cs) => Some(chars_view(cs@)),
                None => None,
            },
        }
    }
}

/// View of a service list.
pub open spec fn svcs_view(v: Seq<GattService>) -> Seq<GattServiceV> {
    v.map_values(|s: GattService| s@)
}

/// A descriptor value decoded per the short-code policy: descriptors with
/// short code `2901` (Characteristic User Description) carry UTF-8 text, all
/// others are kept as raw bytes.  A `2901` value that is not valid UTF-8 is
/// kept raw as well.
pub enum DecodedValue {
    Text(String),
    Raw(Vec<u8>),
}

/// Mathematical content of a [`DecodedValue`].
pub enum DecodedValueV {
    Text(Seq<char>),
    Raw(Seq<u8>),
}

impl View for DecodedValue {
    type V = DecodedValueV;

    open spec fn view(&self) -> DecodedValueV {
        match self {
            DecodedValue::Text(s) => DecodedValueV::Text(s@),
            DecodedValue::Raw(v) => DecodedValueV::Raw(v@),
        }
    }
}

/// One descriptor line of the inventory.
pub struct DescriptorRecord {
    pub assigned_number: String,
    pub value: DecodedValue,
}

/// One characteristic entry of the inventory.
pub struct CharacteristicRecord {
    pub path: String,
    pub assigned_number: String,
    pub flags: Vec<String>,
    pub descriptors: Vec<DescriptorRecord>,
}

/// One service entry of the inventory.
pub struct ServiceRecord {
    pub uuid: String,
    pub assigned_number: String,
    pub characteristics: Vec<CharacteristicRecord>,
}

/// Mathematical content of a [`DescriptorRecord`].
pub struct DescriptorRecordV {
    pub assigned_number: Seq<char>,
    pub value: DecodedValueV,
}

/// Mathematical content of a [`CharacteristicRecord`].
pub struct CharacteristicRecordV {
    pub path: Seq<char>,
    pub assigned_number: Seq<char>,
    pub flags: Seq<Seq<char>>,
    pub descriptors: Seq<DescriptorRecordV>,
}

/// Mathematical content of a [`ServiceRecord`].
pub struct ServiceRecordV {
    pub uuid: Seq<char>,
    pub assigned_number: Seq<char>,
    pub characteristics: Seq<CharacteristicRecordV>,
}

impl View for DescriptorRecord {
    type V = DescriptorRecordV;

    open spec fn view(&self) -> DescriptorRecordV {
        DescriptorRecordV { assigned_number: self.assigned_number@, value: self.value@ }
    }
}

/// The record views of a descriptor-record vector.
pub open spec fn desc_recs_view(v: Seq<DescriptorRecord>) -> Seq<DescriptorRecordV> {
    v.map_values(|r: DescriptorRecord| r@)
}

impl View for CharacteristicRecord {
    type V = CharacteristicRecordV;

    open spec fn view(&self) -> CharacteristicRecordV {
        CharacteristicRecordV {
            path: self.path@,
            assigned_number: self.assigned_number@,
            flags: flags_view(self.flags@),
            descriptors: desc_recs_view(self.descriptors@),
        }
    }
}

/// The record views of a characteristic-record vector.
pub open spec fn char_recs_view(v: Seq<CharacteristicRecord>) -> Seq<CharacteristicRecordV> {
    v.map_values(|r: CharacteristicRecord| r@)
}

impl View for ServiceRecord {
    type V = ServiceRecordV;

    open spec fn view(&self) -> ServiceRecordV {
        ServiceRecordV {
            uuid: self.uuid@,
            assigned_number: self.assigned_number@,
            characteristics: char_recs_view(self.characteristics@),
        }
    }
}

/// The record views of a service-record vector.
pub open spec fn service_recs_view(v: Seq<ServiceRecord>) -> Seq<ServiceRecordV> {
    v.map_values(|r: ServiceRecord| r@)
}

/// The level of the walk at which a diagnostic arose.
#[derive(Clone, Copy, Debug, PartialEq, Eq, Structural)]
pub enum WalkStage {
    Services,
    Characteristics,
    Descriptors,
}

/// One non-fatal finding of the walk: the level, the path of the offending
/// node (empty for the device itself) and the error kind.
pub struct WalkDiagnostic {
    pub stage: WalkStage,
    pub path: String,
    pub error: CoreError,
}

/// Mathematical content of a [`WalkDiagnostic`].
pub struct WalkDiagnosticV {
    pub stage: WalkStage,
    pub path: Seq<char>,
    pub error: CoreError,
}

impl View for WalkDiagnostic {
    type V = WalkDiagnosticV;

    open spec fn view(&self) -> WalkDiagnosticV {
        WalkDiagnosticV { stage: self.stage, path: self.path@, error: self.error }
    }
}

/// View of a diagnostic vector.
pub open spec fn diags_view(v: Seq<WalkDiagnostic>) -> Seq<WalkDiagnosticV> {
    v.map_values(|d: WalkDiagnostic| d@)
}

/// The structured inventory of a device: the service tree that could be
/// read, and every diagnostic gathered on the way, in walk order.
pub struct Inventory {
    pub services: Vec<ServiceRecord>,
    pub diagnostics: Vec<WalkDiagnostic>,
}

/// What the walk yields for one descriptor: its record, or a `MalformedUuid`
/// diagnostic when its UUID does not match the canonical form.
pub open spec fn desc_walk(d: GattDescriptorV) -> (Option<DescriptorRecordV>, Seq<WalkDiagnosticV>) {
    let lu = lower_seq(d.uuid);
    if !is_canonical_uuid(lu) {
        (
            None,
            seq![
                WalkDiagnosticV {
                    stage: WalkStage::Descriptors,
                    path: d.path,
                    error: CoreError::MalformedUuid,
                },
            ],
        )
    } else {
        (
            Some(
                DescriptorRecordV {
                    assigned_number: lu.take(8),
                    value: if lu.subrange(4, 8) == "2901"@ && valid_utf8(d.value) {
                        DecodedValueV::Text(decode_utf8(d.value))
                    } else {
                        DecodedValueV::Raw(d.value)
                    },
                },
            ),
            Seq::empty(),
        )
    }
}

/// The walk over a descriptor list, left to right.
pub open spec fn descs_walk(ds: Seq<GattDescriptorV>) -> (
    Seq<DescriptorRecordV>,
    Seq<WalkDiagnosticV>,
)
    decreases ds.len(),
{
    if ds.len() == 0 {
        (Seq::empty(), Seq::empty())
    } else {
        let prev = descs_walk(ds.drop_last());
        let cur = desc_walk(ds.last());
        (
            match cur.0 {
                Some(rec) => prev.0.push(rec),
                None => prev.0,
            },
            prev.1 + cur.1,
        )
    }
}

/// What the walk yields for one characteristic: a `MalformedUuid` diagnostic
/// when its UUID is ill-formed; otherwise its record, whose descriptor list
/// is empty (plus a `GattWalkFailed` diagnostic) when the host failed to
/// enumerate the descriptors.
pub open spec fn char_walk(c: GattCharacteristicV) -> (
    Option<CharacteristicRecordV>,
    Seq<WalkDiagnosticV>,
) {
    let lu = lower_seq(c.uuid);
    if !is_canonical_uuid(lu) {
        (
            None,
            seq![
                WalkDiagnosticV {
                    stage: WalkStage::Characteristics,
                    path: c.path,
                    error: CoreError::MalformedUuid,
                },
            ],
        )
    } else {
        match c.descriptors {
            None => (
                Some(
                    CharacteristicRecordV {
                        path: c.path,
                        assigned_number: lu.take(8),
                        flags: c.flags,
                        descriptors: Seq::empty(),
                    },
                ),
                seq![
                    WalkDiagnosticV {
                        stage: WalkStage::Descriptors,
                        path: c.path,
                        error: CoreError::GattWalkFailed,
                    },
                ],
            ),
            Some(ds) => {
                let dw = descs_walk(ds);
                (
                    Some(
                        CharacteristicRecordV {
                            path: c.path,
                            assigned_number: lu.take(8),
                            flags: c.flags,
                            descriptors: dw.0,
                        },
                    ),
                    dw.1,
                )
            },
        }
    }
}

/// The walk over a characteristic list, left to right.
pub open spec fn chars_walk(cs: Seq<GattCharacteristicV>) -> (
    Seq<CharacteristicRecordV>,
    Seq<WalkDiagnosticV>,
)
    decreases cs.len(),
{
    if cs.len() == 0 {
        (Seq::empty(), Seq::empty())
    } else {
        let prev = chars_walk(cs.drop_last());
        let cur = char_walk(cs.last());
        (
            match cur.0 {
                Some(rec) => prev.0.push(rec),
                None => prev.0,
            },
            prev.1 + cur.1,
        )
    }
}

/// What the walk yields for one service: a `MalformedUuid` diagnostic when
/// its UUID is ill-formed; otherwise its record, with an empty child list
/// (plus a `GattWalkFailed` diagnostic) when the host failed to enumerate
/// the characteristics.
pub open spec fn service_walk(s: GattServiceV) -> (Option<ServiceRecordV>, Seq<WalkDiagnosticV>) {
    let lu = lower_seq(s.uuid);
    if !is_canonical_uuid(lu) {
        (
            None,
            seq![
                WalkDiagnosticV {
                    stage: WalkStage::Services,
                    path: s.path,
                    error: CoreError::MalformedUuid,
                },
            ],
        )
    } else {
        match s.characteristics {
            None => (
                Some(
                    ServiceRecordV {
                        uuid: s.uuid,
                        assigned_number: lu.take(8),
                        characteristics: Seq::empty(),
                    },
                ),
                seq![
                    WalkDiagnosticV {
                        stage: WalkStage::Characteristics,
                        path: s.path,
                        error: CoreError::GattWalkFailed,
                    },
                ],
            ),
            Some(cs) => {
                let cw = chars_walk(cs);
                (
                    Some(
                        ServiceRecordV {
                            uuid: s.uuid,
                            assigned_number: lu.take(8),
                            characteristics: cw.0,
                        },
                    ),
                    cw.1,
                )
            },
        }
    }
}

/// The walk over a service list, left to right.
pub open spec fn services_walk(svcs: Seq<GattServiceV>) -> (
    Seq<ServiceRecordV>,
    Seq<WalkDiagnosticV>,
)
    decreases svcs.len(),
{
    if svcs.len() == 0 {
        (Seq::empty(), Seq::empty())
    } else {
        let prev = services_walk(svcs.drop_last());
        let cur = service_walk(svcs.last());
        (
            match cur.0 {
                Some(rec) => prev.0.push(rec),
                None => prev.0,
            },
            prev.1 + cur.1,
        )
    }
}

/// The whole profile walk: when the host failed to list the services the
/// inventory is empty and carries the single device-level diagnostic.
pub open spec fn profile_walk(o: Option<Seq<GattServiceV>>) -> (
    Seq<ServiceRecordV>,
    Seq<WalkDiagnosticV>,
) {
    match o {
        None => (
            Seq::empty(),
            seq![
                WalkDiagnosticV {
                    stage: WalkStage::Services,
                    path: Seq::empty(),
                    error: CoreError::GattWalkFailed,
                },
            ],
        ),
        Some(svcs) => services_walk(svcs),
    }
}

/// View of the service-list fetch result.
pub open spec fn services_opt_view(o: Option<Vec<GattService>>) -> Option<Seq<GattServiceV>> {
    match o {
        Some(v) => Some(svcs_view(v@)),
        None => None,
    }
}

/// Walks one descriptor.
fn explore_gatt_descriptor(d: GattDescriptor) -> (r: (
    Option<DescriptorRecord>,
    Vec<WalkDiagnostic>,
))
    ensures
        match r.0 {
            Some(rec) => desc_walk(d@).0 == Some(rec@),
            None => desc_walk(d@).0 is None,
        },
        diags_view(r.1@) == desc_walk(d@).1,
{
    match assigned_number(d.uuid.as_str()) {
        Err(_) => {
            let mut dv: Vec<WalkDiagnostic> = Vec::new();
            dv.push(
                WalkDiagnostic {
                    stage: WalkStage::Descriptors,
                    path: d.path,
                    error: CoreError::MalformedUuid,
                },
            );
            proof {
                assert(diags_view(dv@) =~= desc_walk(d@).1);
            }
            (None, dv)
        },
        Ok(a) => {
            let code = String::from_str(a.as_str().substring_char(4, 8));
            let udc = String::from_str("2901");
            proof {
                assert(lower_seq(d.uuid@).take(8).subrange(4, 8) =~= lower_seq(
                    d.uuid@,
                ).subrange(4, 8));
            }
            let value = if code == udc {
                match utf8_string(&d.value) {
                    Some(text) => DecodedValue::Text(text),
                    None => DecodedValue::Raw(d.value),
                }
            } else {
                DecodedValue::Raw(d.value)
            };
            let dv: Vec<WalkDiagnostic> = Vec::new();
            proof {
                assert(diags_view(dv@) =~= desc_walk(d@).1);
            }
            (Some(DescriptorRecord { assigned_number: a, value }), dv)
        },
    }
}

/// Walks one characteristic and its descriptors.
fn explore_gatt_characteristic(c: GattCharacteristic) -> (r: (
    Option<CharacteristicRecord>,
    Vec<WalkDiagnostic>,
))
    ensures
        match r.0 {
            Some(rec) => char_walk(c@).0 == Some(rec@),
            None => char_walk(c@).0 is None,
        },
        diags_view(r.1@) == char_walk(c@).1,
{
    let ghost cv = c@;
    match assigned_number(c.uuid.as_str()) {
        Err(_) => {
            let mut dv: Vec<WalkDiagnostic> = Vec::new();
            dv.push(
                WalkDiagnostic {
                    stage: WalkStage::Characteristics,
                    path: c.path,
                    error: CoreError::MalformedUuid,
                },
            );
            proof {
                assert(diags_view(dv@) =~= char_walk(cv).1);
            }
            (None, dv)
        },
        Ok(a) => {
            match c.descriptors {
                None => {
                    let mut dv: Vec<WalkDiagnostic> = Vec::new();
                    dv.push(
                        WalkDiagnostic {
                            stage: WalkStage::Descriptors,
                            path: c.path.clone(),
                            error: CoreError::GattWalkFailed,
                        },
                    );
                    let rec = CharacteristicRecord {
                        path: c.path,
                        assigned_number: a,
                        flags: c.flags,
                        descriptors: Vec::new(),
                    };
                    proof {
                        assert(rec@.descriptors =~= Seq::<DescriptorRecordV>::empty());
                        assert(char_walk(cv).0 == Some(rec@));
                        assert(diags_view(dv@) =~= char_walk(cv).1);
                    }
                    (Some(rec), dv)
                },
                Some(mut ds) => {
                    let ghost dsv = descs_view(ds@);
                    proof {
                        assert(cv.descriptors == Some(dsv));
                    }
                    let ghost total = dsv.len();
                    let mut recs: Vec<DescriptorRecord> = Vec::new();
                    let mut diags: Vec<WalkDiagnostic> = Vec::new();
                    let mut done: usize = 0;
                    let n0 = ds.len();
                    proof {
                        assert(total == n0 as int);
                        assert(dsv.take(0) =~= Seq::<GattDescriptorV>::empty());
                        assert(desc_recs_view(recs@) =~= Seq::<DescriptorRecordV>::empty());
                        assert(diags_view(diags@) =~= Seq::<WalkDiagnosticV>::empty());
                    }
                    while ds.len() > 0
                        invariant
                            done + ds@.len() == total,
                            total <= usize::MAX,
                            dsv.len() == total,
                            descs_view(ds@) == dsv.subrange(done as int, total as int),
                            desc_recs_view(recs@) == descs_walk(dsv.take(done as int)).0,
                            diags_view(diags@) == descs_walk(dsv.take(done as int)).1,
                        decreases ds@.len(),
                    {
                        let ghost pre = ds@;
                        let d = ds.remove(0);
                        proof {
                            assert(d@ == descs_view(pre)[0]);
                            assert(descs_view(ds@) =~= dsv.subrange(done + 1, total as int)) by {
                                assert forall|k: int| 0 <= k < ds@.len() implies descs_view(ds@)[k]
                                    == dsv.subrange(done + 1, total as int)[k] by {
                                    assert(ds@[k] == pre.remove(0)[k]);
                                    assert(pre.remove(0)[k] == pre[k + 1]);
                                    assert(descs_view(pre)[k + 1] == pre[k + 1]@);
                                }
                            };
                            assert(dsv.take(done + 1).drop_last() =~= dsv.take(done as int));
                            assert(dsv.take(done + 1).last() == dsv[done as int]);
                        }
                        let walked = explore_gatt_descriptor(d);
                        let orec = walked.0;
                        let mut ddiags = walked.1;
                        match orec {
                            Some(rec) => recs.push(rec),
                            None => (),
                        }
                        diags.append(&mut ddiags);
                        proof {
                            assert(desc_recs_view(recs@) =~= descs_walk(dsv.take(done + 1)).0);
                            assert(diags_view(diags@) =~= descs_walk(dsv.take(done + 1)).1);
                        }
                        done += 1;
                    }
                    proof {
                        assert(dsv.take(total as int) =~= dsv);
                    }
                    let rec = CharacteristicRecord {
                        path: c.path,
                        assigned_number: a,
                        flags: c.flags,
                        descriptors: recs,
                    };
                    proof {
                        assert(char_walk(cv).0 == Some(rec@));
                    }
                    (Some(rec), diags)
                },
            }
        },
    }
}

/// Walks one service and its characteristics.
fn explore_service(s: GattService) -> (r: (Option<ServiceRecord>, Vec<WalkDiagnostic>))
    ensures
        match r.0 {
            Some(rec) => service_walk(s@).0 == Some(rec@),
            None => service_walk(s@).0 is None,
        },
        diags_view(r.1@) == service_walk(s@).1,
{
    let ghost sv = s@;
    match assigned_number(s.uuid.as_str()) {
        Err(_) => {
            let mut dv: Vec<WalkDiagnostic> = Vec::new();
            dv.push(
                WalkDiagnostic {
                    stage: WalkStage::Services,
                    path: s.path,
                    error: CoreError::MalformedUuid,
                },
            );
            proof {
                assert(diags_view(dv@) =~= service_walk(sv).1);
            }
            (None, dv)
        },
        Ok(a) => {
            match s.characteristics {
                None => {
                    let mut dv: Vec<WalkDiagnostic> = Vec::new();
                    dv.push(
                        WalkDiagnostic {
                            stage: WalkStage::Characteristics,
                            path: s.path,
                            error: CoreError::GattWalkFailed,
                        },
                    );
                    let rec = ServiceRecord {
                        uuid: s.uuid,
                        assigned_number: a,
                        characteristics: Vec::new(),
                    };
                    proof {
                        assert(rec@.characteristics =~= Seq::<CharacteristicRecordV>::empty());
                        assert(service_walk(sv).0 == Some(rec@));
                        assert(diags_view(dv@) =~= service_walk(sv).1);
                    }
                    (Some(rec), dv)
                },
                Some(mut cs) => {
                    let ghost csv = chars_view(cs@);
                    proof {
                        assert(sv.characteristics == Some(csv));
                    }
                    let ghost total = csv.len();
                    let mut recs: Vec<CharacteristicRecord> = Vec::new();
                    let mut diags: Vec<WalkDiagnostic> = Vec::new();
                    let mut done: usize = 0;
                    let n0 = cs.len();
                    proof {
                        assert(total == n0 as int);
                        assert(csv.take(0) =~= Seq::<GattCharacteristicV>::empty());
                        assert(char_recs_view(recs@) =~= Seq::<CharacteristicRecordV>::empty());
                        assert(diags_view(diags@) =~= Seq::<WalkDiagnosticV>::empty());
                    }
                    while cs.len() > 0
                        invariant
                            done + cs@.len() == total,
                            total <= usize::MAX,
                            csv.len() == total,
                            chars_view(cs@) == csv.subrange(done as int, total as int),
                            char_recs_view(recs@) == chars_walk(csv.take(done as int)).0,
                            diags_view(diags@) == chars_walk(csv.take(done as int)).1,
                        decreases cs@.len(),
                    {
                        let ghost pre = cs@;
                        let c = cs.remove(0);
                        proof {
                            assert(c@ == chars_view(pre)[0]);
                            assert(chars_view(cs@) =~= csv.subrange(done + 1, total as int)) by {
                                assert forall|k: int| 0 <= k < cs@.len() implies chars_view(cs@)[k]
                                    == csv.subrange(done + 1, total as int)[k] by {
                                    assert(cs@[k] == pre.remove(0)[k]);
                                    assert(pre.remove(0)[k] == pre[k + 1]);
                                    assert(chars_view(pre)[k + 1] == pre[k + 1]@);
                                }
                            };
                            assert(csv.take(done + 1).drop_last() =~= csv.take(done as int));
                            assert(csv.take(done + 1).last() == csv[done as int]);
                        }
                        let walked = explore_gatt_characteristic(c);
                        let orec = walked.0;
                        let mut cdiags = walked.1;
                        match orec {
                            Some(rec) => recs.push(rec),
                            None => (),
                        }
                        diags.append(&mut cdiags);
                        proof {
                            assert(char_recs_view(recs@) =~= chars_walk(csv.take(done + 1)).0);
                            assert(diags_view(diags@) =~= chars_walk(csv.take(done + 1)).1);
                        }
                        done += 1;
                    }
                    proof {
                        assert(csv.take(total as int) =~= csv);
                    }
                    let rec = ServiceRecord { uuid: s.uuid, assigned_number: a, characteristics: recs };
                    proof {
                        assert(service_walk(sv).0 == Some(rec@));
                    }
                    (Some(rec), diags)
                },
            }
        },
    }
}

/// Walks the whole GATT profile of a device, from the host's service-list
/// fetch result, and returns the structured inventory together with every
/// non-fatal diagnostic, in walk order.  The walk mutates nothing and never
/// panics; a failure at one node is recorded and the walk continues with the
/// node's siblings.
pub fn explore_gatt_profile(services: Option<Vec<GattService>>) -> (inv: Inventory)
    ensures
        service_recs_view(inv.services@) == profile_walk(services_opt_view(services)).0,
        diags_view(inv.diagnostics@) == profile_walk(services_opt_view(services)).1,
{
    match services {
        None => {
            let mut dv: Vec<WalkDiagnostic> = Vec::new();
            dv.push(
                WalkDiagnostic {
                    stage: WalkStage::Services,
                    path: String::new(),
                    error: CoreError::GattWalkFailed,
                },
            );
            let inv = Inventory { services: Vec::new(), diagnostics: dv };
            proof {
                assert(service_recs_view(inv.services@) =~= Seq::<ServiceRecordV>::empty());
                assert(diags_view(inv.diagnostics@) =~= profile_walk(
                    services_opt_view(None),
                ).1);
            }
            inv
        },
        Some(mut svcs) => {
            let ghost vv = svcs_view(svcs@);
            let ghost total = vv.len();
            let mut recs: Vec<ServiceRecord> = Vec::new();
            let mut diags: Vec<WalkDiagnostic> = Vec::new();
            let mut done: usize = 0;
            let n0 = svcs.len();
            proof {
                assert(total == n0 as int);
                assert(vv.take(0) =~= Seq::<GattServiceV>::empty());
                assert(service_recs_view(recs@) =~= Seq::<ServiceRecordV>::empty());
                assert(diags_view(diags@) =~= Seq::<WalkDiagnosticV>::empty());
            }
            while svcs.len() > 0
                invariant
                    done + svcs@.len() == total,
                    total <= usize::MAX,
                    vv.len() == total,
                    svcs_view(svcs@) == vv.subrange(done as int, total as int),
                    service_recs_view(recs@) == services_walk(vv.take(done as int)).0,
                    diags_view(diags@) == services_walk(vv.take(done as int)).1,
                decreases svcs@.len(),
            {
                let ghost pre = svcs@;
                let s = svcs.remove(0);
                proof {
                    assert(s@ == svcs_view(pre)[0]);
                    assert(svcs_view(svcs@) =~= vv.subrange(done + 1, total as int)) by {
                        assert forall|k: int| 0 <= k < svcs@.len() implies svcs_view(svcs@)[k]
                            == vv.subrange(done + 1, total as int)[k] by {
                            assert(svcs@[k] == pre.remove(0)[k]);
                            assert(pre.remove(0)[k] == pre[k + 1]);
                            assert(svcs_view(pre)[k + 1] == pre[k + 1]@);
                        }
                    };
                    assert(vv.take(done + 1).drop_last() =~= vv.take(done as int));
                    assert(vv.take(done + 1).last() == vv[done as int]);
                }
                let walked = explore_service(s);
                let orec = walked.0;
                let mut sdiags = walked.1;
                match orec {
                    Some(rec) => recs.push(rec),
                    None => (),
                }
                diags.append(&mut sdiags);
                proof {
                    assert(service_recs_view(recs@) =~= services_walk(vv.take(done + 1)).0);
                    assert(diags_view(diags@) =~= services_walk(vv.take(done + 1)).1);
                }
                done += 1;
            }
            proof {
                assert(vv.take(total as int) =~= vv);
            }
            Inventory { services: recs, diagnostics: diags }
        },
    }
}

/// A flag list grants the notify capability.
pub open spec fn seq_has_notify(fs: Seq<Seq<char>>) -> bool {
    exists|k: int| 0 <= k < fs.len() && fs[k] == "notify"@
}

/// Whether `flags` contains the `notify` capability.
pub fn has_notify_flag(flags: &Vec<String>) -> (r: bool)
    ensures
        r == seq_has_notify(flags_view(flags@)),
{
    let key = String::from_str("notify");
    let mut k: usize = 0;
    while k < flags.len()
        invariant
            0 <= k <= flags@.len(),
            key@ == "notify"@,
            forall|j: int| 0 <= j < k ==> flags_view(flags@)[j] != "notify"@,
        decreases flags@.len() - k,
    {
        let f = &flags[k];
        if *f == key {
            proof {
                assert(flags_view(flags@)[k as int] == "notify"@);
            }
            return true;
        }
        proof {
            assert(flags_view(flags@)[k as int] == flags@[k as int]@);
        }
        k += 1;
    }
    false
}

/// The path of a characteristic when it can notify, nothing otherwise.
pub fn get_characteristic_path(c: &GattCharacteristic) -> (r: Option<String>)
    ensures
        match r {
            Some(p) => seq_has_notify(c@.flags) && p@ == c@.path,
            None => !seq_has_notify(c@.flags),
        },
{
    if has_notify_flag(&c.flags) {
        Some(c.path.clone())
    } else {
        None
    }
}

/// The characteristics of a service, empty when the host failed to list
/// them.
pub open spec fn chars_of(s: GattServiceV) -> Seq<GattCharacteristicV> {
    match s.characteristics {
        Some(cs) => cs,
        None => Seq::empty(),
    }
}

/// The first notify-capable characteristic path at or after characteristic
/// index `j`.
pub open spec fn first_notify_in_chars(cs: Seq<GattCharacteristicV>, j: int) -> Option<Seq<char>>
    decreases cs.len() - j,
{
    if !(0 <= j < cs.len()) {
        None
    } else if seq_has_notify(cs[j].flags) {
        Some(cs[j].path)
    } else {
        first_notify_in_chars(cs, j + 1)
    }
}

/// The first notify-capable characteristic path at or after service index
/// `i`, in service order then characteristic order.
pub open spec fn first_notify_from(svcs: Seq<GattServiceV>, i: int) -> Option<Seq<char>>
    decreases svcs.len() - i,
{
    if !(0 <= i < svcs.len()) {
        None
    } else {
        match first_notify_in_chars(chars_of(svcs[i]), 0) {
            Some(p) => Some(p),
            None => first_notify_from(svcs, i + 1),
        }
    }
}

/// The path of the first characteristic of the tree whose flags grant
/// `notify`, in enumeration order.
pub open spec fn first_notify_path(svcs: Seq<GattServiceV>) -> Option<Seq<char>> {
    first_notify_from(svcs, 0)
}

/// Finds the first characteristic exposing the `notify` capability, in
/// service-list order then characteristic-list order, and returns its path;
/// `None` when no characteristic of the tree can notify.  A service whose
/// characteristics could not be listed counts as having none.
pub fn find_characteristic_path(services: &Vec<GattService>) -> (r: Option<String>)
    ensures
        match r {
            Some(p) => first_notify_path(svcs_view(services@)) == Some(p@),
            None => first_notify_path(svcs_view(services@)) is None,
        },
{
    let ghost sv = svcs_view(services@);
    let mut i: usize = 0;
    while i < services.len()
        invariant
            sv == svcs_view(services@),
            0 <= i <= services@.len(),
            first_notify_from(sv, 0) == first_notify_from(sv, i as int),
        decreases services@.len() - i,
    {
        let svc = &services[i];
        proof {
            assert(sv[i as int] == svc@);
        }
        match &svc.characteristics {
            None => {
                proof {
                    assert(chars_of(sv[i as int]) =~= Seq::<GattCharacteristicV>::empty());
                    assert(first_notify_in_chars(chars_of(sv[i as int]), 0) is None);
                }
            },
            Some(cs) => {
                let ghost cv = chars_view(cs@);
                proof {
                    assert(chars_of(sv[i as int]) == cv);
                }
                let mut j: usize = 0;
                while j < cs.len()
                    invariant
                        sv == svcs_view(services@),
                        0 <= i < services@.len(),
                        sv[i as int].characteristics == Some(cv),
                        cv == chars_view(cs@),
                        0 <= j <= cs@.len(),
                        first_notify_from(sv, 0) == first_notify_from(sv, i as int),
                        first_notify_in_chars(cv, 0) == first_notify_in_chars(cv, j as int),
                    decreases cs@.len() - j,
                {
                    let c = &cs[j];
                    proof {
                        assert(cv[j as int] == c@);
                    }
                    if has_notify_flag(&c.flags) {
                        proof {
                            assert(first_notify_in_chars(cv, j as int) == Some(cv[j as int].path));
                            assert(first_notify_from(sv, i as int) == Some(c.path@));
                        }
                        return Some(c.path.clone());
                    }
                    j += 1;
                }
                proof {
                    assert(first_notify_in_chars(cv, cs@.len() as int) is None);
                }
            },
        }
        proof {
            assert(first_notify_from(sv, i as int) == first_notify_from(sv, i + 1));
        }
        i += 1;
    }
    proof {
        assert(first_notify_from(sv, services@.len() as int) is None);
    }
    None
}

/// A valid (service, characteristic) position of the tree.
pub open spec fn pos_ok(svcs: Seq<GattServiceV>, i: int, j: int) -> bool {
    0 <= i < svcs.len() && 0 <= j < chars_of(svcs[i]).len()
}

/// Position `(a, b)` comes before `(i, j)` in enumeration order.
pub open spec fn earlier_pos(a: int, b: int, i: int, j: int) -> bool {
    a < i || (a == i && b < j)
}

/// The first-match law of the characteristic finder, at the characteristic
/// level: what `first_notify_in_chars` returns is the first notify-capable
/// entry at or after `j`, and `None` means there is none.
proof fn lemma_first_in_chars(cs: Seq<GattCharacteristicV>, j: int)
    requires
        0 <= j <= cs.len(),
    ensures
        match first_notify_in_chars(cs, j) {
            Some(p) => exists|k: int|
                j <= k < cs.len() && #[trigger] seq_has_notify(cs[k].flags) && p == cs[k].path && (
                forall|m: int| j <= m < k ==> !seq_has_notify(cs[m].flags)),
            None => forall|k: int| j <= k < cs.len() ==> !seq_has_notify(cs[k].flags),
        },
    decreases cs.len() - j,
{
    if j < cs.len() {
        if seq_has_notify(cs[j].flags) {
            assert(j <= j < cs.len() && seq_has_notify(cs[j].flags) && first_notify_in_chars(
                cs,
                j,
            ) == Some(cs[j].path) && (forall|m: int| j <= m < j ==> !seq_has_notify(cs[m].flags)));
        } else {
            lemma_first_in_chars(cs, j + 1);
            match first_notify_in_chars(cs, j + 1) {
                Some(p) => {
                    let k = choose|k: int|
                        j + 1 <= k < cs.len() && #[trigger] seq_has_notify(cs[k].flags) && p
                            == cs[k].path && (forall|m: int|
                            j + 1 <= m < k ==> !seq_has_notify(cs[m].flags));
                    assert(forall|m: int| j <= m < k ==> !seq_has_notify(cs[m].flags));
                },
                None => {},
            }
        }
    }
}

/// The first-match law of the characteristic finder: `first_notify_path`
/// returns the path of a notify-capable characteristic such that no position
/// earlier in enumeration order (service order, then characteristic order)
/// can notify, and `None` exactly when no characteristic of the tree can.
pub proof fn lemma_find_first(svcs: Seq<GattServiceV>, i: int)
    requires
        0 <= i <= svcs.len(),
    ensures
        match first_notify_from(svcs, i) {
            Some(p) => exists|a: int, b: int|
                i <= a && #[trigger] pos_ok(svcs, a, b) && seq_has_notify(
                    chars_of(svcs[a])[b].flags,
                ) && p == chars_of(svcs[a])[b].path && (forall|x: int, y: int|
                    i <= x && #[trigger] pos_ok(svcs, x, y) && earlier_pos(x, y, a, b)
                        ==> !seq_has_notify(chars_of(svcs[x])[y].flags)),
            None => forall|a: int, b: int|
                i <= a && #[trigger] pos_ok(svcs, a, b) ==> !seq_has_notify(
                    chars_of(svcs[a])[b].flags,
                ),
        },
    decreases svcs.len() - i,
{
    if i < svcs.len() {
        let cs = chars_of(svcs[i]);
        lemma_first_in_chars(cs, 0);
        match first_notify_in_chars(cs, 0) {
            Some(p) => {
                let k = choose|k: int|
                    0 <= k < cs.len() && #[trigger] seq_has_notify(cs[k].flags) && p == cs[k].path
                        && (forall|m: int| 0 <= m < k ==> !seq_has_notify(cs[m].flags));
                assert(pos_ok(svcs, i, k));
                assert(forall|x: int, y: int|
                    i <= x && #[trigger] pos_ok(svcs, x, y) && earlier_pos(x, y, i, k)
                        ==> !seq_has_notify(chars_of(svcs[x])[y].flags));
            },
            None => {
                lemma_find_first(svcs, i + 1);
                match first_notify_from(svcs, i + 1) {
                    Some(p) => {
                        let (a, b) = choose|a: int, b: int|
                            i + 1 <= a && #[trigger] pos_ok(svcs, a, b) && seq_has_notify(
                                chars_of(svcs[a])[b].flags,
                            ) && p == chars_of(svcs[a])[b].path && (forall|x: int, y: int|
                                i + 1 <= x && #[trigger] pos_ok(svcs, x, y) && earlier_pos(
                                    x,
                                    y,
                                    a,
                                    b,
                                ) ==> !seq_has_notify(chars_of(svcs[x])[y].flags));
                        assert(forall|x: int, y: int|
                            i <= x && #[trigger] pos_ok(svcs, x, y) && earlier_pos(x, y, a, b)
                                ==> !seq_has_notify(chars_of(svcs[x])[y].flags));
                    },
                    None => {
                        assert(forall|a: int, b: int|
                            i <= a && #[trigger] pos_ok(svcs, a, b) ==> !seq_has_notify(
                                chars_of(svcs[a])[b].flags,
                            ));
                    },
                }
            },
        }
    }
}

} // verus!
