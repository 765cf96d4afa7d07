//! Specialization constants and their byte encoding.

use crate::renderpass::RenderPass;
use crate::shader::{AttributeDesc, Shader, ShaderSet, VertexBufferDesc};
use byteorder::{NativeEndian, WriteBytesExt};
use vstd::prelude::*;

verus! {

/// The four bytes of `n`, least significant first.
pub open spec fn le_bytes_u32(n: u32) -> Seq<u8> {
    seq![
        (n & 0xff) as u8,
        ((n >> 8) & 0xff) as u8,
        ((n >> 16) & 0xff) as u8,
        ((n >> 24) & 0xff) as u8,
    ]
}

/// The eight bytes of `n`, least significant first.
pub open spec fn le_bytes_u64(n: u64) -> Seq<u8> {
    seq![
        (n & 0xff) as u8,
        ((n >> 8) & 0xff) as u8,
        ((n >> 16) & 0xff) as u8,
        ((n >> 24) & 0xff) as u8,
        ((n >> 32) & 0xff) as u8,
        ((n >> 40) & 0xff) as u8,
        ((n >> 48) & 0xff) as u8,
        ((n >> 56) & 0xff) as u8,
    ]
}

/// Whether `bytes` is `n` in one of the two byte orders a machine may have.
pub open spec fn is_native_u32(bytes: Seq<u8>, n: u32) -> bool {
    bytes == le_bytes_u32(n) || bytes == le_bytes_u32(n).reverse()
}

/// Whether `bytes` is `n` in one of the two byte orders a machine may have.
pub open spec fn is_native_u64(bytes: Seq<u8>, n: u64) -> bool {
    bytes == le_bytes_u64(n) || bytes == le_bytes_u64(n).reverse()
}

/// `data` has grown by `count` bytes and kept what it held.
pub open spec fn appended(before: Seq<u8>, after: Seq<u8>, count: int) -> bool {
    &&& after.len() == before.len() + count
    &&& after.subrange(0, before.len() as int) == before
}

/// `byteorder::WriteBytesExt::write_u32::<NativeEndian>` on a `Vec<u8>`:
/// appends the four bytes of `n` in the byte order of the machine, which is
/// one of the two orders and not known here. What was in `data` stays.
#[verifier::external_body]
fn write_native_u32(data: &mut Vec<u8>, n: u32)
    ensures
        appended(old(data)@, final(data)@, 4),
        is_native_u32(final(data)@.subrange(old(data)@.len() as int, final(data)@.len() as int), n),
{
    data.write_u32::<NativeEndian>(n).unwrap();
}

/// `byteorder::WriteBytesExt::write_i32::<NativeEndian>` on a `Vec<u8>`:
/// appends the four bytes of the two's complement of `n` in the byte order of
/// the machine. What was in `data` stays.
#[verifier::external_body]
fn write_native_i32(data: &mut Vec<u8>, n: i32)
    ensures
        appended(old(data)@, final(data)@, 4),
        is_native_u32(
            final(data)@.subrange(old(data)@.len() as int, final(data)@.len() as int),
            n as u32,
        ),
{
    data.write_i32::<NativeEndian>(n).unwrap();
}

/// `byteorder::WriteBytesExt::write_u64::<NativeEndian>` on a `Vec<u8>`:
/// appends the eight bytes of `n` in the byte order of the machine. What was
/// in `data` stays.
#[verifier::external_body]
fn write_native_u64(data: &mut Vec<u8>, n: u64)
    ensures
        appended(old(data)@, final(data)@, 8),
        is_native_u64(final(data)@.subrange(old(data)@.len() as int, final(data)@.len() as int), n),
{
    data.write_u64::<NativeEndian>(n).unwrap();
}

/// The value a specialization constant is set to. Floating-point values are
/// held by their IEEE 754 bit patterns.
#[derive(Clone, Copy, Debug, PartialEq, Eq, Structural)]
pub enum SpecializationValue {
    Bool(bool),
    Int(i32),
    Uint(u32),
    /// The bits of a single-precision value.
    Float(u32),
    /// The bits of a double-precision value.
    Double(u64),
}

impl SpecializationValue {
    /// The number of bytes the value is encoded in.
    pub open spec fn spec_size(self) -> u16 {
        match self {
            SpecializationValue::Double(_) => 8,
            _ => 4,
        }
    }

    /// Whether `bytes` encodes the value: a boolean as the word 1 or 0, every
    /// other value by its bits, each in the byte order of the machine.
    pub open spec fn encoded_as(self, bytes: Seq<u8>) -> bool {
        match self {
            SpecializationValue::Bool(b) => is_native_u32(bytes, if b { 1u32 } else { 0u32 }),
            SpecializationValue::Int(i) => is_native_u32(bytes, i as u32),
            SpecializationValue::Uint(u) => is_native_u32(bytes, u),
            SpecializationValue::Float(bits) => is_native_u32(bytes, bits),
            SpecializationValue::Double(bits) => is_native_u64(bytes, bits),
        }
    }

    /// Appends the encoding of the value to `data` and returns its size in
    /// bytes.
    pub fn write_data(&self, data: &mut Vec<u8>) -> (size: u16)
        ensures
            size == self.spec_size(),
            appended(old(data)@, final(data)@, size as int),
            self.encoded_as(
                final(data)@.subrange(old(data)@.len() as int, final(data)@.len() as int),
            ),
    {
        match *self {
            SpecializationValue::Bool(b) => {
                if b {
                    write_native_u32(data, 1)
                } else {
                    write_native_u32(data, 0)
                }
                4
            },
            SpecializationValue::Double(bits) => {
                write_native_u64(data, bits);
                8
            },
            SpecializationValue::Float(bits) => {
                write_native_u32(data, bits);
                4
            },
            SpecializationValue::Int(i) => {
                write_native_i32(data, i);
                4
            },
            SpecializationValue::Uint(u) => {
                write_native_u32(data, u);
                4
            },
        }
    }
}

/// A value for the specialization constant with the id `constant_idx`.
#[derive(Clone, Copy, Debug, PartialEq, Eq, Structural)]
pub struct Specialization {
    pub value: SpecializationValue,
    pub constant_idx: u32,
}

/// The specializations of each stage of a pipeline.
pub type PipeSpecialization<'a> = ShaderSet<&'a [Specialization]>;

/// Where the value of one specialization constant lies in the encoded data.
#[derive(Clone, Copy, Debug, PartialEq, Eq, Structural)]
pub struct SpecializationConstant {
    pub id: u32,
    pub start: u16,
    pub end: u16,
}

/// The encoded specializations of a pipeline: one block of data shared by
/// all stages, and for each stage the ranges of its constants in it.
pub struct PipeToHal {
    pub data: Vec<u8>,
    pub vert_constants: Vec<SpecializationConstant>,
    pub geom_constants: Vec<SpecializationConstant>,
    pub hull_constants: Vec<SpecializationConstant>,
    pub doma_constants: Vec<SpecializationConstant>,
    pub frag_constants: Vec<SpecializationConstant>,
}

/// The bytes taken by the first `n` of `specs`.
pub open spec fn encoded_len(specs: Seq<Specialization>, n: int) -> int
    decreases n,
{
    if n <= 0 {
        0
    } else {
        encoded_len(specs, n - 1) + specs[n - 1].value.spec_size()
    }
}

/// The specializations of a stage; a stage without any has none.
pub open spec fn stage_specs(stage: Option<&[Specialization]>) -> Seq<Specialization> {
    match stage {
        Some(specs) => specs@,
        None => Seq::empty(),
    }
}

/// The constant of the `index`-th of `specs`, where the stage's values start
/// at byte `base`: the values follow each other without gaps.
pub open spec fn constant_at(specs: Seq<Specialization>, base: int, index: int) -> SpecializationConstant {
    SpecializationConstant {
        id: specs[index].constant_idx,
        start: (base + encoded_len(specs, index)) as u16,
        end: (base + encoded_len(specs, index + 1)) as u16,
    }
}

/// The constants of a stage whose values start at byte `base`.
pub open spec fn stage_constants(specs: Seq<Specialization>, base: int) -> Seq<SpecializationConstant> {
    Seq::new(specs.len(), |index: int| constant_at(specs, base, index))
}

/// Whether `data` holds, from byte `base` on, the encoding of each of the
/// first `n` of `specs` in order.
pub open spec fn encoded_upto(data: Seq<u8>, specs: Seq<Specialization>, base: int, n: int) -> bool {
    forall|index: int|
        0 <= index < n ==> (#[trigger] specs[index]).value.encoded_as(
            data.subrange(
                base + encoded_len(specs, index),
                base + encoded_len(specs, index + 1),
            ),
        )
}

/// Whether `data` holds, from byte `base` on, the encoding of each of `specs`
/// in order.
pub open spec fn stage_encoded(data: Seq<u8>, specs: Seq<Specialization>, base: int) -> bool {
    encoded_upto(data, specs, base, specs.len() as int)
}

/// The bytes of all specializations of a pipeline.
pub open spec fn total_len(specs: PipeSpecialization) -> int {
    encoded_len(stage_specs(specs.vertex), stage_specs(specs.vertex).len() as int) + encoded_len(
        stage_specs(specs.hull),
        stage_specs(specs.hull).len() as int,
    ) + encoded_len(stage_specs(specs.geometry), stage_specs(specs.geometry).len() as int)
        + encoded_len(stage_specs(specs.domain), stage_specs(specs.domain).len() as int)
        + encoded_len(stage_specs(specs.fragment), stage_specs(specs.fragment).len() as int)
}

/// The first byte of each stage's values: the stages are encoded in the
/// order vertex, hull, geometry, domain, fragment.
pub open spec fn hull_base(specs: PipeSpecialization) -> int {
    encoded_len(stage_specs(specs.vertex), stage_specs(specs.vertex).len() as int)
}

/// See `hull_base`.
pub open spec fn geometry_base(specs: PipeSpecialization) -> int {
    hull_base(specs) + encoded_len(stage_specs(specs.hull), stage_specs(specs.hull).len() as int)
}

/// See `hull_base`.
pub open spec fn domain_base(specs: PipeSpecialization) -> int {
    geometry_base(specs) + encoded_len(
        stage_specs(specs.geometry),
        stage_specs(specs.geometry).len() as int,
    )
}

/// See `hull_base`.
pub open spec fn fragment_base(specs: PipeSpecialization) -> int {
    domain_base(specs) + encoded_len(
        stage_specs(specs.domain),
        stage_specs(specs.domain).len() as int,
    )
}

/// The encoded length never shrinks as more values are counted.
pub proof fn lemma_encoded_len_monotonic(specs: Seq<Specialization>, i: int, j: int)
    requires
        0 <= i <= j,
    ensures
        0 <= encoded_len(specs, i) <= encoded_len(specs, j),
    decreases j,
{
    if j > 0 {
        if i < j {
            lemma_encoded_len_monotonic(specs, i, j - 1);
        } else {
            lemma_encoded_len_monotonic(specs, i - 1, j - 1);
        }
    }
}

/// The constants of a stage lie behind each other without gaps: each is as
/// long as its value, starts where the one before it ends, and none reaches
/// beyond the stage's bytes.
pub proof fn lemma_constants_packed(specs: Seq<Specialization>, base: int, index: int)
    requires
        0 <= base,
        0 <= index < specs.len(),
        base + encoded_len(specs, specs.len() as int) <= u16::MAX,
    ensures
        ({
            let constants = stage_constants(specs, base);
            &&& constants.len() == specs.len()
            &&& constants[index].id == specs[index].constant_idx
            &&& constants[index].end - constants[index].start == specs[index].value.spec_size()
            &&& index == 0 ==> constants[index].start == base
            &&& index > 0 ==> constants[index].start == constants[index - 1].end
            &&& constants[index].end <= base + encoded_len(specs, specs.len() as int)
        }),
{
    lemma_encoded_len_monotonic(specs, 0, index);
    lemma_encoded_len_monotonic(specs, index, index + 1);
    lemma_encoded_len_monotonic(specs, index + 1, specs.len() as int);
    assert(encoded_len(specs, index + 1) == encoded_len(specs, index)
        + specs[index].value.spec_size());
    if index > 0 {
        lemma_encoded_len_monotonic(specs, 0, index - 1);
    }
}

/// Bytes appended to `data` leave every range of the earlier bytes as it was.
proof fn lemma_appended_keeps(before: Seq<u8>, after: Seq<u8>, count: int, from: int, to: int)
    requires
        appended(before, after, count),
        0 <= count,
        0 <= from <= to <= before.len(),
    ensures
        after.subrange(from, to) == before.subrange(from, to),
{
    assert forall|k: int| 0 <= k < to - from implies after.subrange(from, to)[k]
        == before.subrange(from, to)[k] by {
        assert(after.subrange(0, before.len() as int)[from + k] == before[from + k]);
    }
    assert(after.subrange(from, to) =~= before.subrange(from, to));
}

/// Two appends in a row are one append of both.
proof fn lemma_appended_twice(first: Seq<u8>, second: Seq<u8>, third: Seq<u8>, a: int, b: int)
    requires
        0 <= a,
        0 <= b,
        appended(first, second, a),
        appended(second, third, b),
    ensures
        appended(first, third, a + b),
{
    lemma_appended_keeps(second, third, b, 0, first.len() as int);
    assert(second.subrange(0, first.len() as int) == first);
}

/// Values that are encoded stay encoded when bytes are appended behind them.
proof fn lemma_stage_kept(
    before: Seq<u8>,
    after: Seq<u8>,
    count: int,
    specs: Seq<Specialization>,
    base: int,
    n: int,
)
    requires
        appended(before, after, count),
        0 <= count,
        0 <= base,
        0 <= n <= specs.len(),
        base + encoded_len(specs, n) <= before.len(),
        encoded_upto(before, specs, base, n),
    ensures
        encoded_upto(after, specs, base, n),
{
    assert forall|index: int| 0 <= index < n implies (#[trigger] specs[index]).value.encoded_as(
        after.subrange(base + encoded_len(specs, index), base + encoded_len(specs, index + 1)),
    ) by {
        lemma_encoded_len_monotonic(specs, index, index + 1);
        lemma_encoded_len_monotonic(specs, index + 1, n);
        lemma_appended_keeps(
            before,
            after,
            count,
            base + encoded_len(specs, index),
            base + encoded_len(specs, index + 1),
        );
    }
}

/// Appending the encoding of the next value extends what is encoded by it.
proof fn lemma_stage_extended(
    before: Seq<u8>,
    after: Seq<u8>,
    specs: Seq<Specialization>,
    base: int,
    n: int,
)
    requires
        0 <= base,
        0 <= n < specs.len(),
        before.len() == base + encoded_len(specs, n),
        appended(before, after, specs[n].value.spec_size() as int),
        encoded_upto(before, specs, base, n),
        specs[n].value.encoded_as(after.subrange(before.len() as int, after.len() as int)),
    ensures
        encoded_upto(after, specs, base, n + 1),
{
    lemma_stage_kept(before, after, specs[n].value.spec_size() as int, specs, base, n);
    assert(encoded_len(specs, n + 1) == encoded_len(specs, n) + specs[n].value.spec_size());
}

impl PipeToHal {
    /// Whether this is the encoding of `specs`: the data holds the values of
    /// the stages in the order vertex, hull, geometry, domain, fragment,
    /// without gaps, and each stage's constants give the place of each of
    /// its values.
    pub open spec fn encodes(self, specs: PipeSpecialization) -> bool {
        &&& self.data@.len() == total_len(specs)
        &&& self.vert_constants@ == stage_constants(stage_specs(specs.vertex), 0)
        &&& self.hull_constants@ == stage_constants(stage_specs(specs.hull), hull_base(specs))
        &&& self.geom_constants@ == stage_constants(
            stage_specs(specs.geometry),
            geometry_base(specs),
        )
        &&& self.doma_constants@ == stage_constants(stage_specs(specs.domain), domain_base(specs))
        &&& self.frag_constants@ == stage_constants(
            stage_specs(specs.fragment),
            fragment_base(specs),
        )
        &&& stage_encoded(self.data@, stage_specs(specs.vertex), 0)
        &&& stage_encoded(self.data@, stage_specs(specs.hull), hull_base(specs))
        &&& stage_encoded(self.data@, stage_specs(specs.geometry), geometry_base(specs))
        &&& stage_encoded(self.data@, stage_specs(specs.domain), domain_base(specs))
        &&& stage_encoded(self.data@, stage_specs(specs.fragment), fragment_base(specs))
    }

    /// Encodes the values of one stage behind what `data` holds, and returns
    /// the range of each.
    fn write_stage(stage: Option<&[Specialization]>, data: &mut Vec<u8>) -> (constants: Vec<
        SpecializationConstant,
    >)
        requires
            old(data)@.len() + encoded_len(stage_specs(stage), stage_specs(stage).len() as int)
                <= u16::MAX,
        ensures
            appended(
                old(data)@,
                final(data)@,
                encoded_len(stage_specs(stage), stage_specs(stage).len() as int),
            ),
            constants@ == stage_constants(stage_specs(stage), old(data)@.len() as int),
            stage_encoded(final(data)@, stage_specs(stage), old(data)@.len() as int),
    {
        let mut constants: Vec<SpecializationConstant> = Vec::new();
        let ghost base = data@.len() as int;
        let ghost all = stage_specs(stage);
        proof {
            lemma_encoded_len_monotonic(all, 0, all.len() as int);
            assert(data@.subrange(0, base) =~= data@);
        }
        match stage {
            None => {
                assert(constants@ =~= stage_constants(all, base));
            },
            Some(specs) => {
                let mut cur_offset: u16 = data.len() as u16;
                let mut i: usize = 0;
                while i < specs.len()
                    invariant
                        all == specs@,
                        base == old(data)@.len(),
                        i <= specs@.len(),
                        base + encoded_len(all, all.len() as int) <= u16::MAX,
                        cur_offset == base + encoded_len(all, i as int),
                        appended(old(data)@, data@, encoded_len(all, i as int)),
                        constants@.len() == i,
                        forall|k: int| 0 <= k < i ==> constants@[k] == constant_at(all, base, k),
                        encoded_upto(data@, all, base, i as int),
                    decreases specs@.len() - i,
                {
                    let ghost before = data@;
                    let size = specs[i].value.write_data(data);
                    proof {
                        lemma_encoded_len_monotonic(all, 0, i as int);
                        lemma_encoded_len_monotonic(all, i + 1, all.len() as int);
                        assert(encoded_len(all, i + 1) == encoded_len(all, i as int) + size);
                        lemma_appended_twice(
                            old(data)@,
                            before,
                            data@,
                            encoded_len(all, i as int),
                            size as int,
                        );
                        lemma_stage_extended(before, data@, all, base, i as int);
                    }
                    let end: u16 = cur_offset + size;
                    constants.push(
                        SpecializationConstant { id: specs[i].constant_idx, start: cur_offset, end },
                    );
                    cur_offset = end;
                    i += 1;
                }
                assert(constants@ =~= stage_constants(all, base));
            },
        }
        constants
    }

    /// Encodes the specializations of all stages into one block of data, in
    /// the order vertex, hull, geometry, domain, fragment, and records for
    /// each constant the range of its value.
    pub fn create(specs: PipeSpecialization) -> (pipe: PipeToHal)
        requires
            total_len(specs) <= u16::MAX,
        ensures
            pipe.encodes(specs),
    {
        let mut data: Vec<u8> = Vec::new();
        proof {
            let v = stage_specs(specs.vertex);
            let h = stage_specs(specs.hull);
            let g = stage_specs(specs.geometry);
            let d = stage_specs(specs.domain);
            let f = stage_specs(specs.fragment);
            lemma_encoded_len_monotonic(v, 0, v.len() as int);
            lemma_encoded_len_monotonic(h, 0, h.len() as int);
            lemma_encoded_len_monotonic(g, 0, g.len() as int);
            lemma_encoded_len_monotonic(d, 0, d.len() as int);
            lemma_encoded_len_monotonic(f, 0, f.len() as int);
        }
        let vert_constants = PipeToHal::write_stage(specs.vertex, &mut data);
        let ghost after_vertex = data@;
        let hull_constants = PipeToHal::write_stage(specs.hull, &mut data);
        let ghost after_hull = data@;
        let geom_constants = PipeToHal::write_stage(specs.geometry, &mut data);
        let ghost after_geometry = data@;
        let doma_constants = PipeToHal::write_stage(specs.domain, &mut data);
        let ghost after_domain = data@;
        let frag_constants = PipeToHal::write_stage(specs.fragment, &mut data);
        proof {
            let v = stage_specs(specs.vertex);
            let h = stage_specs(specs.hull);
            let g = stage_specs(specs.geometry);
            let d = stage_specs(specs.domain);
            let f = stage_specs(specs.fragment);
            let hl = encoded_len(h, h.len() as int);
            let gl = encoded_len(g, g.len() as int);
            let dl = encoded_len(d, d.len() as int);
            let fl = encoded_len(f, f.len() as int);
            lemma_stage_kept(after_vertex, after_hull, hl, v, 0, v.len() as int);
            lemma_stage_kept(after_hull, after_geometry, gl, v, 0, v.len() as int);
            lemma_stage_kept(after_geometry, after_domain, dl, v, 0, v.len() as int);
            lemma_stage_kept(after_domain, data@, fl, v, 0, v.len() as int);
            lemma_stage_kept(after_hull, after_geometry, gl, h, hull_base(specs), h.len() as int);
            lemma_stage_kept(after_geometry, after_domain, dl, h, hull_base(specs), h.len() as int);
            lemma_stage_kept(after_domain, data@, fl, h, hull_base(specs), h.len() as int);
            lemma_stage_kept(after_geometry, after_domain, dl, g, geometry_base(specs), g.len() as int);
            lemma_stage_kept(after_domain, data@, fl, g, geometry_base(specs), g.len() as int);
            lemma_stage_kept(after_domain, data@, fl, d, domain_base(specs), d.len() as int);
        }
        PipeToHal {
            data,
            vert_constants,
            geom_constants,
            hull_constants,
            doma_constants,
            frag_constants,
        }
    }

    /// Whether the specializations fit the 16-bit offsets of the encoded
    /// data, which `create` asks for.
    pub fn fits(specs: &PipeSpecialization) -> (ok: bool)
        ensures
            ok == (total_len(*specs) <= u16::MAX),
    {
        proof {
            let h = stage_specs(specs.hull);
            let g = stage_specs(specs.geometry);
            let d = stage_specs(specs.domain);
            let f = stage_specs(specs.fragment);
            lemma_encoded_len_monotonic(h, 0, h.len() as int);
            lemma_encoded_len_monotonic(g, 0, g.len() as int);
            lemma_encoded_len_monotonic(d, 0, d.len() as int);
            lemma_encoded_len_monotonic(f, 0, f.len() as int);
        }
        let (ok, total) = PipeToHal::add_stage(&specs.vertex, 0);
        if !ok {
            return false;
        }
        let (ok, total) = PipeToHal::add_stage(&specs.hull, total);
        if !ok {
            return false;
        }
        let (ok, total) = PipeToHal::add_stage(&specs.geometry, total);
        if !ok {
            return false;
        }
        let (ok, total) = PipeToHal::add_stage(&specs.domain, total);
        if !ok {
            return false;
        }
        let (ok, total) = PipeToHal::add_stage(&specs.fragment, total);
        ok
    }

    /// Adds the bytes of one stage to `total`, as long as the sum fits 16-bit
    /// offsets.
    fn add_stage(stage: &Option<&[Specialization]>, total: u16) -> (r: (bool, u16))
        ensures
            r.0 == (total + encoded_len(stage_specs(*stage), stage_specs(*stage).len() as int)
                <= u16::MAX),
            r.0 ==> r.1 == total + encoded_len(
                stage_specs(*stage),
                stage_specs(*stage).len() as int,
            ),
    {
        match stage {
            None => (true, total),
            Some(specs) => {
                let mut sum: u16 = total;
                let mut i: usize = 0;
                assert(stage_specs(*stage) == specs@);
                while i < specs.len()
                    invariant
                        i <= specs@.len(),
                        stage_specs(*stage) == specs@,
                        sum == total + encoded_len(specs@, i as int),
                    decreases specs@.len() - i,
                {
                    let size: u16 = match specs[i].value {
                        SpecializationValue::Double(_) => 8,
                        _ => 4,
                    };
                    if sum > u16::MAX - size {
                        proof {
                            assert(size == specs@[i as int].value.spec_size());
                            assert(encoded_len(specs@, i + 1) == encoded_len(specs@, i as int)
                                + size);
                            lemma_encoded_len_monotonic(specs@, i + 1, specs@.len() as int);
                        }
                        return (false, sum);
                    }
                    sum += size;
                    i += 1;
                }
                (true, sum)
            },
        }
    }

    /// The specialization of each stage: its constants, all pointing into the
    /// shared data. A stage without constants has none.
    pub fn make_hal<'a>(&'a self) -> (set: ShaderSet<&'a Vec<SpecializationConstant>>)
        ensures
            set.vertex == PipeToHal::stage_of(&self.vert_constants),
            set.hull == PipeToHal::stage_of(&self.hull_constants),
            set.domain == PipeToHal::stage_of(&self.doma_constants),
            set.geometry == PipeToHal::stage_of(&self.geom_constants),
            set.fragment == PipeToHal::stage_of(&self.frag_constants),
    {
        ShaderSet {
            vertex: PipeToHal::spec(&self.vert_constants),
            hull: PipeToHal::spec(&self.hull_constants),
            domain: PipeToHal::spec(&self.doma_constants),
            geometry: PipeToHal::spec(&self.geom_constants),
            fragment: PipeToHal::spec(&self.frag_constants),
        }
    }

    /// The constants of a stage, or nothing where it has none.
    pub open spec fn stage_of(consts: &Vec<SpecializationConstant>) -> Option<
        &Vec<SpecializationConstant>,
    > {
        if consts@.len() == 0 {
            None
        } else {
            Some(consts)
        }
    }

    fn spec<'a>(consts: &'a Vec<SpecializationConstant>) -> (stage: Option<
        &'a Vec<SpecializationConstant>,
    >)
        ensures
            stage == PipeToHal::stage_of(consts),
    {
        if consts.len() == 0 {
            None
        } else {
            Some(consts)
        }
    }
}

/// How the inside of a polygon is drawn.
#[derive(Clone, Copy, Debug, PartialEq, Eq, Structural)]
pub enum PolygonMode {
    Point,
    Line,
    Fill,
}

/// The winding of the vertices of a front face.
#[derive(Clone, Copy, Debug, PartialEq, Eq, Structural)]
pub enum FrontFace {
    Clockwise,
    CounterClockwise,
}

/// The faces that are not drawn.
#[derive(Clone, Copy, Debug, PartialEq, Eq, Structural)]
pub enum CullFace {
    Neither,
    Front,
    Back,
}

/// How vertices are put together.
#[derive(Clone, Copy, Debug, PartialEq, Eq, Structural)]
pub enum Primitive {
    PointList,
    LineList,
    LineStrip,
    TriangleList,
    TriangleStrip,
}

/// When a fragment passes the depth test.
#[derive(Clone, Copy, Debug, PartialEq, Eq, Structural)]
pub enum Comparison {
    Never,
    Less,
    Equal,
    LessEqual,
    Greater,
    NotEqual,
    GreaterEqual,
    Always,
}

/// How a fragment is combined with what the target holds.
#[derive(Clone, Copy, Debug, PartialEq, Eq, Structural)]
pub enum BlendState {
    Off,
    /// Colour by the source's alpha, alpha as premultiplied.
    Alpha,
}

/// How primitives become fragments.
#[derive(Clone, Copy, Debug, PartialEq, Eq, Structural)]
pub struct Rasterizer {
    pub polygon_mode: PolygonMode,
    pub cull_face: CullFace,
    pub front_face: FrontFace,
    pub depth_clamping: bool,
    pub depth_bias: bool,
    pub conservative: bool,
}

/// The depth test of a pipeline.
#[derive(Clone, Copy, Debug, PartialEq, Eq, Structural)]
pub struct DepthTest {
    pub fun: Comparison,
    pub write: bool,
}

/// The fixed state of a pipeline.
#[derive(Clone, Copy, Debug, PartialEq, Eq, Structural)]
pub struct PipelineState {
    pub primitive: Primitive,
    pub rasterizer: Rasterizer,
    pub depth: DepthTest,
    pub depth_bounds: bool,
    pub stencil: bool,
    /// The colour channels written, one bit each; all four are `0xF`.
    pub color_mask: u8,
    pub blend: BlendState,
}

/// The description a graphics pipeline is created from.
pub struct Pipeline {
    pub specialization: PipeToHal,
    pub state: PipelineState,
    /// The index of the subpass the pipeline draws in.
    pub subpass: usize,
    pub vertex_buffers: Vec<VertexBufferDesc>,
    pub attributes: Vec<AttributeDesc>,
}

/// The state every pipeline has: filled triangles, back faces culled,
/// counter-clockwise fronts, a depth test that passes and writes nearer
/// fragments, no stencil test, and alpha blending into all channels.
pub open spec fn fixed_state() -> PipelineState {
    PipelineState {
        primitive: Primitive::TriangleList,
        rasterizer: Rasterizer {
            polygon_mode: PolygonMode::Fill,
            cull_face: CullFace::Back,
            front_face: FrontFace::CounterClockwise,
            depth_clamping: false,
            depth_bias: false,
            conservative: false,
        },
        depth: DepthTest { fun: Comparison::Less, write: true },
        depth_bounds: false,
        stencil: false,
        color_mask: 0xF,
        blend: BlendState::Alpha,
    }
}

impl Pipeline {
    /// Describes the pipeline that draws with `shader` in `pass`, with the
    /// constants of the shader's stages set as `specialization` says.
    pub fn create(pass: &RenderPass, shader: &Shader, specialization: PipeSpecialization) -> (pipeline:
        Pipeline)
        requires
            total_len(specialization) <= u16::MAX,
        ensures
            pipeline.specialization.encodes(specialization),
            pipeline.state == fixed_state(),
            pipeline.subpass == 0,
            pipeline.vertex_buffers@ == seq![shader.vertex_desc],
            pipeline.attributes@ == shader.attribute_descs@,
    {
        let pipe_to_hal = PipeToHal::create(specialization);
        let subpass = pass.make_subpass();
        let state = PipelineState {
            primitive: Primitive::TriangleList,
            rasterizer: Rasterizer {
                polygon_mode: PolygonMode::Fill,
                cull_face: CullFace::Back,
                front_face: FrontFace::CounterClockwise,
                depth_clamping: false,
                depth_bias: false,
                conservative: false,
            },
            depth: DepthTest { fun: Comparison::Less, write: true },
            depth_bounds: false,
            stencil: false,
            color_mask: 0xF,
            blend: BlendState::Alpha,
        };
        let mut vertex_buffers: Vec<VertexBufferDesc> = Vec::new();
        let mut attributes: Vec<AttributeDesc> = Vec::new();
        shader.describe_vertices(&mut vertex_buffers, &mut attributes);
        assert(vertex_buffers@ =~= seq![shader.vertex_desc]);
        Pipeline { specialization: pipe_to_hal, state, subpass, vertex_buffers, attributes }
    }
}

} // verus!
