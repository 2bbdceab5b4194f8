use vstd::prelude::*;

verus! {

/// Driver enum of the 32-bit float element type.
pub const FLOAT: u32 = 0x1406;

/// Driver enum of the 32-bit unsigned integer element type.
pub const UNSIGNED_INT: u32 = 0x1405;

/// Driver enum of the static usage hint.
pub const STATIC_DRAW: u32 = 0x88E4;

/// Driver enum of the dynamic usage hint.
pub const DYNAMIC_DRAW: u32 = 0x88E8;

/// Size in bytes of one float or one index.
pub const ELEMENT_BYTES: usize = 4;

/// How often the contents of a buffer are expected to change.
#[derive(Clone, Copy, Debug, PartialEq, Eq, Structural)]
pub enum UsageHint {
    Static,
    Dynamic,
}

pub open spec fn usage_enum(h: UsageHint) -> u32 {
    match h {
        UsageHint::Static => STATIC_DRAW,
        UsageHint::Dynamic => DYNAMIC_DRAW,
    }
}

impl UsageHint {
    /// The driver enum of this hint.
    pub fn gl_enum(&self) -> (r: u32)
        ensures
            r == usage_enum(*self),
    {
        match self {
            UsageHint::Static => STATIC_DRAW,
            UsageHint::Dynamic => DYNAMIC_DRAW,
        }
    }
}

/// Byte length of `count` elements of `element_size` bytes, as the driver's
/// signed size type takes it; `None` when it does not fit.
pub fn buffer_byte_size(count: usize, element_size: usize) -> (r: Option<isize>)
    ensures
        r is Some <==> count * element_size <= isize::MAX,
        r is Some ==> r->Some_0 == count * element_size,
{
    if element_size == 0 {
        assert(count * element_size == 0) by (nonlinear_arith)
            requires element_size == 0;
        return Some(0);
    }
    if count > (isize::MAX as usize) / element_size {
        assert(count * element_size > isize::MAX) by (nonlinear_arith)
            requires
                count > (isize::MAX as usize) / element_size,
                element_size > 0,
        ;
        None
    } else {
        assert(count * element_size <= isize::MAX) by (nonlinear_arith)
            requires
                count <= (isize::MAX as usize) / element_size,
                element_size > 0,
        ;
        Some((count * element_size) as isize)
    }
}

/// A buffer of indices, bound to the element-array target.
pub struct ElementBufferObject {
    m_id: u32,
}

impl ElementBufferObject {
    pub closed spec fn spec_id(&self) -> u32 {
        self.m_id
    }

    /// The buffer for the driver handle `id`.
    pub fn new(id: u32) -> (r: ElementBufferObject)
        ensures
            r.spec_id() == id,
    {
        ElementBufferObject { m_id: id }
    }

    pub fn get_id(&self) -> (r: u32)
        ensures
            r == self.spec_id(),
    {
        self.m_id
    }
}

/// A buffer of vertex data, bound to the array target.
pub struct VertexBufferObject {
    m_id: u32,
}

impl VertexBufferObject {
    pub closed spec fn spec_id(&self) -> u32 {
        self.m_id
    }

    /// The buffer for the driver handle `id`.
    pub fn new(id: u32) -> (r: VertexBufferObject)
        ensures
            r.spec_id() == id,
    {
        VertexBufferObject { m_id: id }
    }

    pub fn get_id(&self) -> (r: u32)
        ensures
            r == self.spec_id(),
    {
        self.m_id
    }
}

/// How the bytes of the bound vertex buffer feed one vertex-shader input slot.
#[derive(Clone, Copy, Debug, PartialEq, Eq, Structural)]
pub struct AttributeBinding {
    pub slot: u32,
    pub component_count: i32,
    pub element_type: u32,
    pub normalized: bool,
    pub stride: i32,
    pub offset: usize,
}

/// The bindings `s` after `b` is configured: it replaces the binding of the
/// same slot in place, or is added at the end.
pub open spec fn with_binding(s: Seq<AttributeBinding>, b: AttributeBinding) -> Seq<
    AttributeBinding,
>
    decreases s.len(),
{
    if s.len() == 0 {
        seq![b]
    } else if s[0].slot == b.slot {
        seq![b] + s.drop_first()
    } else {
        seq![s[0]] + with_binding(s.drop_first(), b)
    }
}

/// The bindings `s` after each of `l` is configured, in order.
pub open spec fn with_bindings(s: Seq<AttributeBinding>, l: Seq<AttributeBinding>) -> Seq<
    AttributeBinding,
>
    decreases l.len(),
{
    if l.len() == 0 {
        s
    } else {
        with_binding(with_bindings(s, l.drop_last()), l.last())
    }
}

/// No two bindings share a slot.
pub open spec fn slots_distinct(s: Seq<AttributeBinding>) -> bool {
    forall|i: int, j: int| 0 <= i < j < s.len() ==> s[i].slot != s[j].slot
}

proof fn lemma_with_binding_at(s: Seq<AttributeBinding>, b: AttributeBinding, i: int)
    requires
        0 <= i < s.len(),
        s[i].slot == b.slot,
        forall|j: int| 0 <= j < i ==> s[j].slot != b.slot,
    ensures
        with_binding(s, b) == s.update(i, b),
    decreases s.len(),
{
    if i > 0 {
        let t = s.drop_first();
        assert forall|j: int| 0 <= j < i - 1 implies t[j].slot != b.slot by {
            assert(t[j] == s[j + 1]);
        }
        lemma_with_binding_at(t, b, i - 1);
        assert(seq![s[0]] + t.update(i - 1, b) =~= s.update(i, b));
    } else {
        assert(seq![b] + s.drop_first() =~= s.update(0, b));
    }
}

proof fn lemma_with_binding_new(s: Seq<AttributeBinding>, b: AttributeBinding)
    requires
        forall|j: int| 0 <= j < s.len() ==> s[j].slot != b.slot,
    ensures
        with_binding(s, b) == s.push(b),
    decreases s.len(),
{
    if s.len() == 0 {
        assert(seq![b] =~= s.push(b));
    } else {
        let t = s.drop_first();
        assert forall|j: int| 0 <= j < t.len() implies t[j].slot != b.slot by {
            assert(t[j] == s[j + 1]);
        }
        lemma_with_binding_new(t, b);
        assert(seq![s[0]] + t.push(b) =~= s.push(b));
    }
}

/// The vertex array state: a driver handle and the attribute bindings
/// configured while it was bound, at most one per slot.
pub struct VertexArrayObject {
    m_id: u32,
    m_bindings: Vec<AttributeBinding>,
}

impl VertexArrayObject {
    pub closed spec fn spec_id(&self) -> u32 {
        self.m_id
    }

    pub closed spec fn spec_bindings(&self) -> Seq<AttributeBinding> {
        self.m_bindings@
    }

    pub open spec fn wf(&self) -> bool {
        slots_distinct(self.spec_bindings())
    }

    /// The vertex array for the driver handle `id`, with no bindings yet.
    pub fn new(id: u32) -> (r: VertexArrayObject)
        ensures
            r.spec_id() == id,
            r.spec_bindings() == Seq::<AttributeBinding>::empty(),
            r.wf(),
    {
        VertexArrayObject { m_id: id, m_bindings: Vec::new() }
    }

    pub fn get_id(&self) -> (r: u32)
        ensures
            r == self.spec_id(),
    {
        self.m_id
    }

    pub fn bindings(&self) -> (r: &Vec<AttributeBinding>)
        ensures
            r@ == self.spec_bindings(),
    {
        &self.m_bindings
    }

    /// Records `b` as the binding of its slot, replacing any earlier one.
    pub fn configure_attribute(&mut self, b: AttributeBinding)
        requires
            old(self).wf(),
        ensures
            final(self).wf(),
            final(self).spec_id() == old(self).spec_id(),
            final(self).spec_bindings() == with_binding(old(self).spec_bindings(), b),
    {
        let ghost s = self.m_bindings@;
        let mut i: usize = 0;
        while i < self.m_bindings.len()
            invariant
                self.m_bindings@ == s,
                s == old(self).spec_bindings(),
                self.m_id == old(self).spec_id(),
                slots_distinct(s),
                i <= s.len(),
                forall|j: int| 0 <= j < i ==> s[j].slot != b.slot,
            decreases s.len() - i,
        {
            if self.m_bindings[i].slot == b.slot {
                proof {
                    lemma_with_binding_at(s, b, i as int);
                }
                self.m_bindings.set(i, b);
                assert(slots_distinct(self.m_bindings@)) by {
                    assert forall|p: int, q: int|
                        0 <= p < q < self.m_bindings@.len() implies self.m_bindings@[p].slot
                        != self.m_bindings@[q].slot by {
                        if p != i && q != i {
                            assert(s[p].slot != s[q].slot);
                        } else if p == i {
                            assert(s[i as int].slot != s[q].slot);
                        } else {
                            assert(s[p].slot != s[i as int].slot);
                        }
                    }
                }
                return;
            }
            i = i + 1;
        }
        proof {
            lemma_with_binding_new(s, b);
        }
        self.m_bindings.push(b);
    }
}

/// Sum of the first `n` entries of `counts`.
pub open spec fn prefix_sum(counts: Seq<i32>, n: int) -> int
    decreases n,
{
    if n <= 0 {
        0
    } else {
        prefix_sum(counts, n - 1) + counts[n - 1]
    }
}

/// Whether `layout` interleaves float attributes of `counts` components, in
/// order, in slots 0, 1, ...: each one right after the one before, all with
/// the stride of one whole vertex.
pub open spec fn is_interleaved_layout(counts: Seq<i32>, layout: Seq<AttributeBinding>) -> bool {
    &&& layout.len() == counts.len()
    &&& forall|i: int|
        0 <= i < counts.len() ==> #[trigger] layout[i] == (AttributeBinding {
            slot: i as u32,
            component_count: counts[i],
            element_type: FLOAT,
            normalized: false,
            stride: (ELEMENT_BYTES * prefix_sum(counts, counts.len() as int)) as i32,
            offset: (ELEMENT_BYTES * prefix_sum(counts, i)) as usize,
        })
}

/// Whether every count is a size the driver takes for one attribute, 1 to 4,
/// and one whole vertex fits the driver's stride type.
pub open spec fn layout_fits(counts: Seq<i32>) -> bool {
    &&& forall|i: int| 0 <= i < counts.len() ==> 1 <= #[trigger] counts[i] <= 4
    &&& ELEMENT_BYTES * prefix_sum(counts, counts.len() as int) <= i32::MAX
}

proof fn lemma_prefix_sum_bounds(counts: Seq<i32>, n: int)
    requires
        0 <= n <= counts.len(),
        forall|i: int| 0 <= i < counts.len() ==> 1 <= #[trigger] counts[i] <= 4,
    ensures
        n <= prefix_sum(counts, n) <= 4 * n,
    decreases n,
{
    if n > 0 {
        lemma_prefix_sum_bounds(counts, n - 1);
    }
}

proof fn lemma_prefix_sum_monotone(counts: Seq<i32>, m: int, n: int)
    requires
        0 <= m <= n <= counts.len(),
        forall|i: int| 0 <= i < counts.len() ==> 1 <= #[trigger] counts[i] <= 4,
    ensures
        prefix_sum(counts, m) <= prefix_sum(counts, n),
    decreases n - m,
{
    if m < n {
        lemma_prefix_sum_monotone(counts, m, n - 1);
    }
}

/// The bindings of interleaved float attributes with `component_counts`
/// components each, in slots 0, 1, ...; `None` when a count is not 1 to 4 or
/// one vertex is too large for the driver's stride type.
pub fn interleaved_layout(component_counts: &Vec<i32>) -> (r: Option<Vec<AttributeBinding>>)
    ensures
        r is Some <==> layout_fits(component_counts@),
        r is Some ==> is_interleaved_layout(component_counts@, r->Some_0@),
{
    let ghost c = component_counts@;
    let n = component_counts.len();
    let mut total: usize = 0;
    let mut i: usize = 0;
    while i < n
        invariant
            n == c.len(),
            c == component_counts@,
            i <= n,
            forall|j: int| 0 <= j < i ==> 1 <= #[trigger] c[j] <= 4,
            total == prefix_sum(c, i as int),
            ELEMENT_BYTES * total <= i32::MAX,
        decreases n - i,
    {
        let k = component_counts[i];
        if k < 1 || k > 4 {
            return None;
        }
        if ELEMENT_BYTES * (total + k as usize) > i32::MAX as usize {
            proof {
                assert(prefix_sum(c, i + 1) == total + k);
                if layout_fits(c) {
                    lemma_prefix_sum_monotone(c, i + 1, n as int);
                }
            }
            return None;
        }
        total = total + k as usize;
        i = i + 1;
    }
    let stride = (ELEMENT_BYTES * total) as i32;
    let mut layout: Vec<AttributeBinding> = Vec::new();
    let mut offset: usize = 0;
    let mut j: usize = 0;
    while j < n
        invariant
            n == c.len(),
            c == component_counts@,
            layout_fits(c),
            j <= n,
            stride == ELEMENT_BYTES * prefix_sum(c, n as int),
            offset == ELEMENT_BYTES * prefix_sum(c, j as int),
            layout@.len() == j,
            forall|q: int|
                0 <= q < j ==> #[trigger] layout@[q] == (AttributeBinding {
                    slot: q as u32,
                    component_count: c[q],
                    element_type: FLOAT,
                    normalized: false,
                    stride: stride,
                    offset: (ELEMENT_BYTES * prefix_sum(c, q)) as usize,
                }),
        decreases n - j,
    {
        proof {
            lemma_prefix_sum_monotone(c, j as int + 1, n as int);
            lemma_prefix_sum_bounds(c, j as int + 1);
        }
        let k = component_counts[j];
        layout.push(
            AttributeBinding {
                slot: j as u32,
                component_count: k,
                element_type: FLOAT,
                normalized: false,
                stride: stride,
                offset: offset,
            },
        );
        offset = offset + ELEMENT_BYTES * (k as usize);
        j = j + 1;
    }
    Some(layout)
}

} // verus!
