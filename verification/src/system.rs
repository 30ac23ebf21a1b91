//! What a core says about itself: its name and the roms it takes, the controllers it knows
//! for each port, and the subsystems it offers.
use vstd::prelude::*;
use crate::options::str_or_empty;

verus! {

/// The identity of the core and the roms it takes.
pub struct SysInfo {
    pub library_name: String,
    pub library_version: String,
    pub valid_extensions: String,
    pub need_full_path: bool,
    pub block_extract: bool,
}

/// The memory a subsystem rom uses.
pub struct MemoryInfo {
    pub extension: String,
    pub type_: u32,
}

/// A kind of controller that the core knows.
pub struct ControllerDescription {
    pub desc: String,
    pub id: u32,
}

/// One rom of a subsystem.
pub struct SubSystemRomInfo {
    pub desc: String,
    pub valid_extensions: String,
    pub need_full_path: bool,
    pub block_extract: bool,
    pub required: bool,
    pub memory: MemoryInfo,
    pub num_memory: u32,
}

/// A subsystem the core offers.
pub struct SubSystemInfo {
    pub id: u32,
    pub desc: String,
    pub ident: String,
    pub roms: Vec<SubSystemRomInfo>,
}

/// Everything the core said about itself.
pub struct System {
    pub info: SysInfo,
    pub ports: Vec<ControllerDescription>,
    pub subsystem: Vec<SubSystemInfo>,
    pub performance_level: u8,
}

/// The system information as the core hands it over; `None` for a null string.
pub struct RawSystemInfo {
    pub library_name: Option<String>,
    pub library_version: Option<String>,
    pub valid_extensions: Option<String>,
    pub need_fullpath: bool,
    pub block_extract: bool,
}

/// A controller kind as the core hands it over.
pub struct RawControllerDescription {
    pub desc: Option<String>,
    pub id: u32,
}

/// The controller kinds of one port as the core hands them over: `types` is `None` for a
/// null array, and only its first `num_types` entries count.
pub struct RawControllerInfo {
    pub types: Option<Vec<RawControllerDescription>>,
    pub num_types: u32,
}

/// The memory of a subsystem rom as the core hands it over.
pub struct RawSubsystemMemoryInfo {
    pub extension: Option<String>,
    pub type_: u32,
}

/// A subsystem rom as the core hands it over.
pub struct RawSubsystemRomInfo {
    pub desc: Option<String>,
    pub valid_extensions: Option<String>,
    pub need_fullpath: bool,
    pub block_extract: bool,
    pub required: bool,
    pub memory: RawSubsystemMemoryInfo,
    pub num_memory: u32,
}

/// A subsystem as the core hands it over: only the first `num_roms` roms count.
pub struct RawSubsystemInfo {
    pub desc: Option<String>,
    pub ident: Option<String>,
    pub roms: Vec<RawSubsystemRomInfo>,
    pub num_roms: u32,
    pub id: u32,
}

/// A controller kind by its view.
pub open spec fn controller_view(c: ControllerDescription) -> (Seq<char>, u32) {
    (c.desc@, c.id)
}

/// The controller kinds of one port that count.
pub open spec fn info_types(i: RawControllerInfo) -> Seq<RawControllerDescription> {
    match i.types {
        Some(t) => t@.take(if i.num_types as int <= t@.len() { i.num_types as int } else { t@.len() as int }),
        None => seq![],
    }
}

/// The controller kinds of all ports, one after the other, up to the first port without
/// an array.
pub open spec fn flatten_infos(infos: Seq<RawControllerInfo>) -> Seq<RawControllerDescription>
    decreases infos.len(),
{
    if infos.len() == 0 || infos[0].types is None {
        seq![]
    } else {
        info_types(infos[0]) + flatten_infos(infos.drop_first())
    }
}

/// The controller kinds kept: those before the first one without a description.
pub open spec fn described_prefix(ds: Seq<RawControllerDescription>) -> Seq<(Seq<char>, u32)>
    decreases ds.len(),
{
    if ds.len() == 0 || ds[0].desc is None {
        seq![]
    } else {
        seq![(ds[0].desc.unwrap()@, ds[0].id)] + described_prefix(ds.drop_first())
    }
}

pub open spec fn memory_view(m: MemoryInfo) -> (Seq<char>, u32) {
    (m.extension@, m.type_)
}

/// A subsystem rom by its view.
pub struct RomInfoView {
    pub desc: Seq<char>,
    pub valid_extensions: Seq<char>,
    pub need_full_path: bool,
    pub block_extract: bool,
    pub required: bool,
    pub memory: (Seq<char>, u32),
    pub num_memory: u32,
}

pub open spec fn rom_info_view(r: SubSystemRomInfo) -> RomInfoView {
    RomInfoView {
        desc: r.desc@,
        valid_extensions: r.valid_extensions@,
        need_full_path: r.need_full_path,
        block_extract: r.block_extract,
        required: r.required,
        memory: memory_view(r.memory),
        num_memory: r.num_memory,
    }
}

pub open spec fn raw_rom_view(r: RawSubsystemRomInfo) -> RomInfoView {
    RomInfoView {
        desc: str_or_empty(r.desc),
        valid_extensions: str_or_empty(r.valid_extensions),
        need_full_path: r.need_fullpath,
        block_extract: r.block_extract,
        required: r.required,
        memory: (str_or_empty(r.memory.extension), r.memory.type_),
        num_memory: r.num_memory,
    }
}

/// A subsystem by its view.
pub struct SubsystemView {
    pub id: u32,
    pub desc: Seq<char>,
    pub ident: Seq<char>,
    pub roms: Seq<RomInfoView>,
}

pub open spec fn subsystem_view(s: SubSystemInfo) -> SubsystemView {
    SubsystemView {
        id: s.id,
        desc: s.desc@,
        ident: s.ident@,
        roms: s.roms@.map_values(|r: SubSystemRomInfo| rom_info_view(r)),
    }
}

/// The subsystem kept for one the core hands over: its first `num_roms` roms.
pub open spec fn raw_subsystem_view(s: RawSubsystemInfo) -> SubsystemView {
    SubsystemView {
        id: s.id,
        desc: str_or_empty(s.desc),
        ident: str_or_empty(s.ident),
        roms: s.roms@.take(
            if s.num_roms as int <= s.roms@.len() { s.num_roms as int } else { s.roms@.len() as int },
        ).map_values(|r: RawSubsystemRomInfo| raw_rom_view(r)),
    }
}

/// The subsystems that are read: those before the first one without an ident.
pub open spec fn declared_subsystems(raw: Seq<RawSubsystemInfo>, n: int) -> bool {
    &&& 0 <= n <= raw.len()
    &&& forall|j: int| 0 <= j < n ==> (#[trigger] raw[j]).ident is Some
    &&& (n == raw.len() || raw[n].ident is None)
}

proof fn lemma_described_prefix_all(a: Seq<RawControllerDescription>, b: Seq<RawControllerDescription>)
    requires
        forall|j: int| 0 <= j < a.len() ==> (#[trigger] a[j]).desc is Some,
    ensures
        described_prefix(a + b) == a.map_values(|d: RawControllerDescription| (d.desc.unwrap()@, d.id))
            + described_prefix(b),
    decreases a.len(),
{
    if a.len() == 0 {
        assert(a + b =~= b);
        assert(a.map_values(|d: RawControllerDescription| (d.desc.unwrap()@, d.id)) =~= seq![]);
        assert(seq![] + described_prefix(b) =~= described_prefix(b));
    } else {
        assert((a + b).drop_first() =~= a.drop_first() + b);
        assert((a + b)[0] == a[0]);
        lemma_described_prefix_all(a.drop_first(), b);
        assert(a.map_values(|d: RawControllerDescription| (d.desc.unwrap()@, d.id)) =~= seq![
            (a[0].desc.unwrap()@, a[0].id),
        ] + a.drop_first().map_values(|d: RawControllerDescription| (d.desc.unwrap()@, d.id)));
        assert(described_prefix(a + b) =~= a.map_values(
            |d: RawControllerDescription| (d.desc.unwrap()@, d.id),
        ) + described_prefix(b));
    }
}

proof fn lemma_described_prefix_stop(a: Seq<RawControllerDescription>, b: Seq<RawControllerDescription>)
    requires
        forall|j: int| 0 <= j < a.len() ==> (#[trigger] a[j]).desc is Some,
        b.len() > 0,
        b[0].desc is None,
    ensures
        described_prefix(a + b) == a.map_values(|d: RawControllerDescription| (d.desc.unwrap()@, d.id)),
{
    lemma_described_prefix_all(a, b);
    assert(described_prefix(b) =~= seq![]);
    assert(a.map_values(|d: RawControllerDescription| (d.desc.unwrap()@, d.id)) + seq![] =~= a.map_values(
        |d: RawControllerDescription| (d.desc.unwrap()@, d.id),
    ));
}

/// Flattening the ports before `i` and then the rest.
proof fn lemma_flatten_split(infos: Seq<RawControllerInfo>, i: int)
    requires
        0 <= i < infos.len(),
        forall|j: int| 0 <= j <= i ==> (#[trigger] infos[j]).types is Some,
    ensures
        flatten_infos(infos) == flatten_infos(infos.take(i)) + info_types(infos[i]) + flatten_infos(
            infos.skip(i + 1),
        ),
    decreases i,
{
    if i == 0 {
        assert(infos.take(0) =~= seq![]);
        assert(infos.drop_first() =~= infos.skip(1));
        assert(flatten_infos(infos.take(0)) =~= seq![]);
        assert(flatten_infos(infos) =~= flatten_infos(infos.take(i)) + info_types(infos[i])
            + flatten_infos(infos.skip(i + 1)));
    } else {
        let t = infos.drop_first();
        assert forall|j: int| 0 <= j <= i - 1 implies (#[trigger] t[j]).types is Some by {
            assert(t[j] == infos[j + 1]);
        }
        lemma_flatten_split(t, i - 1);
        assert(t.take(i - 1) =~= infos.take(i).drop_first());
        assert(t.skip(i) =~= infos.skip(i + 1));
        assert(infos.take(i)[0] == infos[0]);
        assert(infos[0].types is Some);
        assert(flatten_infos(infos.take(i)) == info_types(infos[0]) + flatten_infos(
            infos.take(i).drop_first(),
        ));
        assert(flatten_infos(infos) =~= flatten_infos(infos.take(i)) + info_types(infos[i])
            + flatten_infos(infos.skip(i + 1)));
    }
}

/// Flattening stops at the first port without an array.
proof fn lemma_flatten_stop(infos: Seq<RawControllerInfo>, i: int)
    requires
        0 <= i <= infos.len(),
        forall|j: int| 0 <= j < i ==> (#[trigger] infos[j]).types is Some,
        i == infos.len() || infos[i].types is None,
    ensures
        flatten_infos(infos) == flatten_infos(infos.take(i)),
    decreases i,
{
    if i == 0 {
        assert(infos.take(0) =~= seq![]);
        assert(flatten_infos(infos) =~= seq![]);
    } else {
        let t = infos.drop_first();
        assert forall|j: int| 0 <= j < i - 1 implies (#[trigger] t[j]).types is Some by {
            assert(t[j] == infos[j + 1]);
        }
        lemma_flatten_stop(t, i - 1);
        assert(t.take(i - 1) =~= infos.take(i).drop_first());
        assert(infos.take(i)[0] == infos[0]);
    }
}

proof fn lemma_flatten_push(infos: Seq<RawControllerInfo>, i: int)
    requires
        0 <= i < infos.len(),
        forall|j: int| 0 <= j <= i ==> (#[trigger] infos[j]).types is Some,
    ensures
        flatten_infos(infos.take(i + 1)) == flatten_infos(infos.take(i)) + info_types(infos[i]),
{
    let t = infos.take(i + 1);
    assert forall|j: int| 0 <= j <= i implies (#[trigger] t[j]).types is Some by {
        assert(t[j] == infos[j]);
    }
    lemma_flatten_split(t, i);
    assert(t.take(i) =~= infos.take(i));
    assert(t.skip(i + 1) =~= seq![]);
    assert(flatten_infos(t.skip(i + 1)) =~= seq![]);
    assert(flatten_infos(infos.take(i)) + info_types(infos[i]) + seq![] =~= flatten_infos(infos.take(i))
        + info_types(infos[i]));
}

fn string_or_empty(o: &Option<String>) -> (r: String)
    ensures
        r@ == str_or_empty(*o),
{
    match o {
        Some(s) => s.clone(),
        None => String::new(),
    }
}

impl System {
    /// The controller kinds kept, by their views.
    pub open spec fn ports_view(&self) -> Seq<(Seq<char>, u32)> {
        self.ports@.map_values(|c: ControllerDescription| controller_view(c))
    }

    /// The subsystems kept, by their views.
    pub open spec fn subsystem_view(&self) -> Seq<SubsystemView> {
        self.subsystem@.map_values(|s: SubSystemInfo| subsystem_view(s))
    }

    /// The system of a core that has said nothing but its identity; `None` strings become
    /// empty ones.
    pub fn new(raw: &RawSystemInfo) -> (r: System)
        ensures
            r.info.library_name@ == str_or_empty(raw.library_name),
            r.info.library_version@ == str_or_empty(raw.library_version),
            r.info.valid_extensions@ == str_or_empty(raw.valid_extensions),
            r.info.need_full_path == raw.need_fullpath,
            r.info.block_extract == raw.block_extract,
            r.ports@.len() == 0,
            r.subsystem@.len() == 0,
            r.performance_level == 0,
    {
        System {
            info: SysInfo {
                library_name: string_or_empty(&raw.library_name),
                library_version: string_or_empty(&raw.library_version),
                valid_extensions: string_or_empty(&raw.valid_extensions),
                need_full_path: raw.need_fullpath,
                block_extract: raw.block_extract,
            },
            ports: Vec::new(),
            subsystem: Vec::new(),
            performance_level: 0,
        }
    }

    /// Replaces the controller kinds with those the core hands over: port after port up to
    /// the first port without an array, and within that, up to the first kind without a
    /// description.
    pub fn get_ports(&mut self, raw_ctr_infos: &Vec<RawControllerInfo>)
        ensures
            final(self).ports_view() == described_prefix(flatten_infos(raw_ctr_infos@)),
            final(self).info == old(self).info,
            final(self).subsystem == old(self).subsystem,
            final(self).performance_level == old(self).performance_level,
    {
        self.ports.clear();
        let ghost infos = raw_ctr_infos@;
        let mut i: usize = 0;
        while i < raw_ctr_infos.len()
            invariant
                infos == raw_ctr_infos@,
                i <= infos.len(),
                forall|j: int| 0 <= j < i ==> (#[trigger] infos[j]).types is Some,
                forall|j: int|
                    0 <= j < flatten_infos(infos.take(i as int)).len() ==> (#[trigger] flatten_infos(
                        infos.take(i as int),
                    )[j]).desc is Some,
                self.ports_view() == flatten_infos(infos.take(i as int)).map_values(
                    |d: RawControllerDescription| (d.desc.unwrap()@, d.id),
                ),
                self.info == old(self).info,
                self.subsystem == old(self).subsystem,
                self.performance_level == old(self).performance_level,
            decreases infos.len() - i,
        {
            match &raw_ctr_infos[i].types {
                None => {
                    proof {
                        lemma_flatten_stop(infos, i as int);
                        lemma_described_prefix_all(flatten_infos(infos.take(i as int)), seq![]);
                        assert(flatten_infos(infos.take(i as int)) + seq![] =~= flatten_infos(
                            infos.take(i as int),
                        ));
                        assert(described_prefix(seq![]) =~= seq![]);
                        assert(flatten_infos(infos.take(i as int)).map_values(
                            |d: RawControllerDescription| (d.desc.unwrap()@, d.id),
                        ) + seq![] =~= flatten_infos(infos.take(i as int)).map_values(
                            |d: RawControllerDescription| (d.desc.unwrap()@, d.id),
                        ));
                    }
                    return;
                },
                Some(types) => {
                    let n = types.len();
                    let take = if (raw_ctr_infos[i].num_types as usize) <= n {
                        raw_ctr_infos[i].num_types as usize
                    } else {
                        n
                    };
                    let ghost prev = flatten_infos(infos.take(i as int));
                    let ghost cur = info_types(infos[i as int]);
                    assert(cur == types@.take(take as int));
                    let mut k: usize = 0;
                    while k < take
                        invariant
                            infos == raw_ctr_infos@,
                            i < infos.len(),
                            infos[i as int].types == Some(*types),
                            take <= types.len(),
                            cur == types@.take(take as int),
                            cur == info_types(infos[i as int]),
                            k <= take,
                            forall|j: int| 0 <= j < i ==> (#[trigger] infos[j]).types is Some,
                            forall|j: int| 0 <= j < prev.len() ==> (#[trigger] prev[j]).desc is Some,
                            forall|j: int| 0 <= j < k ==> (#[trigger] cur[j]).desc is Some,
                            self.ports_view() == (prev + cur.take(k as int)).map_values(
                                |d: RawControllerDescription| (d.desc.unwrap()@, d.id),
                            ),
                            prev == flatten_infos(infos.take(i as int)),
                            self.info == old(self).info,
                            self.subsystem == old(self).subsystem,
                            self.performance_level == old(self).performance_level,
                        decreases take - k,
                    {
                        match &types[k].desc {
                            None => {
                                proof {
                                    lemma_flatten_split(infos, i as int);
                                    let a = prev + cur.take(k as int);
                                    let b = cur.skip(k as int) + flatten_infos(infos.skip(i + 1));
                                    let f = flatten_infos(infos.skip(i + 1));
                                    assert(flatten_infos(infos) == prev + cur + f);
                                    assert(cur =~= cur.take(k as int) + cur.skip(k as int));
                                    assert(prev + cur + f =~= a + b);
                                    assert forall|j: int| 0 <= j < a.len() implies (#[trigger] a[j]).desc is Some by {
                                        if j < prev.len() {
                                            assert(a[j] == prev[j]);
                                        } else {
                                            assert(a[j] == cur[j - prev.len()]);
                                        }
                                    }
                                    assert(b[0] == cur[k as int]);
                                    lemma_described_prefix_stop(a, b);
                                }
                                return;
                            },
                            Some(d) => {
                                let c = ControllerDescription { desc: d.clone(), id: types[k].id };
                                let ghost before = self.ports_view();
                                self.ports.push(c);
                                proof {
                                    assert(self.ports_view() =~= before.push(controller_view(c)));
                                    assert(cur[k as int] == types@[k as int]);
                                    assert((prev + cur.take(k + 1)) =~= (prev + cur.take(k as int)).push(
                                        cur[k as int],
                                    ));
                                    assert(self.ports_view() =~= (prev + cur.take(k + 1)).map_values(
                                        |d: RawControllerDescription| (d.desc.unwrap()@, d.id),
                                    ));
                                }
                            },
                        }
                        k = k + 1;
                    }
                    proof {
                        lemma_flatten_push(infos, i as int);
                        assert(cur.take(take as int) =~= cur);
                        let nxt = flatten_infos(infos.take(i + 1));
                        assert(nxt == prev + cur);
                        assert forall|j: int| 0 <= j < nxt.len() implies (#[trigger] nxt[j]).desc is Some by {
                            if j < prev.len() {
                                assert(nxt[j] == prev[j]);
                            } else {
                                assert(nxt[j] == cur[j - prev.len()]);
                            }
                        }
                    }
                },
            }
            i = i + 1;
        }
        proof {
            lemma_flatten_stop(infos, i as int);
            assert(infos.take(i as int) =~= infos);
            lemma_described_prefix_all(flatten_infos(infos), seq![]);
            assert(flatten_infos(infos) + seq![] =~= flatten_infos(infos));
            assert(described_prefix(seq![]) =~= seq![]);
            assert(flatten_infos(infos).map_values(|d: RawControllerDescription| (d.desc.unwrap()@, d.id))
                + seq![] =~= flatten_infos(infos).map_values(
                |d: RawControllerDescription| (d.desc.unwrap()@, d.id),
            ));
        }
    }

    /// Replaces the subsystems with those the core hands over, up to the first one without
    /// an ident; each keeps its first `num_roms` roms.
    pub fn get_subsystem(&mut self, raw_subsystem: &Vec<RawSubsystemInfo>)
        ensures
            exists|n: int|
                declared_subsystems(raw_subsystem@, n) && final(self).subsystem_view() == raw_subsystem@.take(
                    n,
                ).map_values(|s: RawSubsystemInfo| raw_subsystem_view(s)),
            final(self).info == old(self).info,
            final(self).ports == old(self).ports,
            final(self).performance_level == old(self).performance_level,
    {
        self.subsystem.clear();
        let mut i: usize = 0;
        while i < raw_subsystem.len() && raw_subsystem[i].ident.is_some()
            invariant
                i <= raw_subsystem.len(),
                forall|j: int| 0 <= j < i ==> (#[trigger] raw_subsystem@[j]).ident is Some,
                self.subsystem_view() == raw_subsystem@.take(i as int).map_values(
                    |s: RawSubsystemInfo| raw_subsystem_view(s),
                ),
                self.info == old(self).info,
                self.ports == old(self).ports,
                self.performance_level == old(self).performance_level,
            decreases raw_subsystem.len() - i,
        {
            let raw_sys = &raw_subsystem[i];
            let n = raw_sys.roms.len();
            let take = if (raw_sys.num_roms as usize) <= n {
                raw_sys.num_roms as usize
            } else {
                n
            };
            let mut roms: Vec<SubSystemRomInfo> = Vec::new();
            let mut k: usize = 0;
            while k < take
                invariant
                    take <= raw_sys.roms.len(),
                    k <= take,
                    roms@.map_values(|r: SubSystemRomInfo| rom_info_view(r)) == raw_sys.roms@.take(
                        k as int,
                    ).map_values(|r: RawSubsystemRomInfo| raw_rom_view(r)),
                decreases take - k,
            {
                let rom = &raw_sys.roms[k];
                let info = SubSystemRomInfo {
                    desc: string_or_empty(&rom.desc),
                    valid_extensions: string_or_empty(&rom.valid_extensions),
                    need_full_path: rom.need_fullpath,
                    block_extract: rom.block_extract,
                    required: rom.required,
                    num_memory: rom.num_memory,
                    memory: MemoryInfo {
                        extension: string_or_empty(&rom.memory.extension),
                        type_: rom.memory.type_,
                    },
                };
                let ghost before = roms@.map_values(|r: SubSystemRomInfo| rom_info_view(r));
                let ghost iv = rom_info_view(info);
                assert(iv == raw_rom_view(raw_sys.roms@[k as int]));
                roms.push(info);
                assert(roms@.map_values(|r: SubSystemRomInfo| rom_info_view(r)) =~= before.push(iv));
                assert(raw_sys.roms@.take(k + 1).map_values(|r: RawSubsystemRomInfo| raw_rom_view(r))
                    =~= raw_sys.roms@.take(k as int).map_values(|r: RawSubsystemRomInfo| raw_rom_view(r)).push(
                    raw_rom_view(raw_sys.roms@[k as int]),
                ));
                assert(roms@.map_values(|r: SubSystemRomInfo| rom_info_view(r)) =~= raw_sys.roms@.take(
                    k + 1,
                ).map_values(|r: RawSubsystemRomInfo| raw_rom_view(r)));
                k = k + 1;
            }
            let sub = SubSystemInfo {
                id: raw_sys.id,
                desc: string_or_empty(&raw_sys.desc),
                ident: string_or_empty(&raw_sys.ident),
                roms,
            };
            assert(subsystem_view(sub) == raw_subsystem_view(raw_subsystem@[i as int]));
            let ghost before = self.subsystem_view();
            let ghost sv = subsystem_view(sub);
            self.subsystem.push(sub);
            assert(self.subsystem_view() =~= before.push(sv));
            assert(self.subsystem_view() =~= raw_subsystem@.take(i + 1).map_values(
                |s: RawSubsystemInfo| raw_subsystem_view(s),
            ));
            i = i + 1;
        }
        assert(declared_subsystems(raw_subsystem@, i as int));
    }
}

} // verus!
