use vstd::prelude::*;

verus! {

/// The memory offset of the `i`-th byte (in row order, top row first) of a plane
/// with the given line size and height. A negative line size means the rows are
/// stored bottom-to-top: the top row is the last one in memory.
pub open spec fn plane_offset(linesize: int, height: int, i: int) -> int {
    if linesize >= 0 {
        i
    } else {
        (height - 1 - i / (-linesize)) * (-linesize) + i % (-linesize)
    }
}

/// The memory offset at which row `row` (top row first) of a plane starts.
pub open spec fn row_start(linesize: int, height: int, row: int) -> int {
    if linesize >= 0 {
        row * linesize
    } else {
        (height - 1 - row) * (-linesize)
    }
}

/// Every byte index of a plane maps to an offset inside its memory, and the row of
/// the index starts at the offset minus the column.
pub proof fn lemma_plane_offset_in_bounds(linesize: int, height: int, i: int)
    requires
        height >= 0,
        0 <= i < abs_int(linesize) * height,
    ensures
        0 <= plane_offset(linesize, height, i) < abs_int(linesize) * height,
        abs_int(linesize) > 0,
        plane_offset(linesize, height, i) == row_start(linesize, height, i / abs_int(linesize)) + i
            % abs_int(linesize),
        0 <= i / abs_int(linesize) < height,
        0 <= i % abs_int(linesize) < abs_int(linesize),
{
    let s = abs_int(linesize);
    if s == 0 {
        assert(s * height == 0) by (nonlinear_arith)
            requires
                s == 0,
        ;
    }
    assert(s > 0);
    let q = i / s;
    let r = i % s;
    vstd::arithmetic::div_mod::lemma_fundamental_div_mod(i, s);
    assert(0 <= r < s) by {
        vstd::arithmetic::div_mod::lemma_mod_bound(i, s);
    }
    assert(i == s * q + r);
    assert(0 <= q < height) by (nonlinear_arith)
        requires
            i == s * q + r,
            0 <= r < s,
            0 <= i < s * height,
            s > 0,
    ;
    if linesize >= 0 {
        assert(s == linesize);
        assert(q * linesize == s * q) by (nonlinear_arith)
            requires
                s == linesize,
        ;
    } else {
        assert(0 <= (height - 1 - q) * s + r < s * height) by (nonlinear_arith)
            requires
                0 <= q < height,
                0 <= r < s,
                s > 0,
        ;
    }
}

/// Two distinct byte indexes of a plane never share a memory offset.
pub proof fn lemma_plane_offset_injective(linesize: int, height: int, i: int, j: int)
    requires
        height >= 0,
        0 <= i < abs_int(linesize) * height,
        0 <= j < abs_int(linesize) * height,
        i != j,
    ensures
        plane_offset(linesize, height, i) != plane_offset(linesize, height, j),
{
    lemma_plane_offset_in_bounds(linesize, height, i);
    lemma_plane_offset_in_bounds(linesize, height, j);
    if linesize < 0 {
        let s = -linesize;
        let qi = i / s;
        let qj = j / s;
        let ri = i % s;
        let rj = j % s;
        vstd::arithmetic::div_mod::lemma_fundamental_div_mod(i, s);
        vstd::arithmetic::div_mod::lemma_fundamental_div_mod(j, s);
        if plane_offset(linesize, height, i) == plane_offset(linesize, height, j) {
            let o = plane_offset(linesize, height, i);
            assert(o == (height - 1 - qi) * s + ri);
            assert(o == (height - 1 - qj) * s + rj);
            vstd::arithmetic::div_mod::lemma_fundamental_div_mod_converse(o, s, height - 1 - qi, ri);
            vstd::arithmetic::div_mod::lemma_fundamental_div_mod_converse(o, s, height - 1 - qj, rj);
            assert(qi == qj && ri == rj);
            assert(i == j);
        }
    }
}

/// The bytes of a plane in top-to-bottom order, read from its memory.
pub open spec fn plane_bytes(linesize: int, height: int, memory: Seq<u8>) -> Seq<u8> {
    Seq::new((abs_int(linesize) * height) as nat, |i: int| memory[plane_offset(linesize, height, i)])
}

/// Writing a byte at the memory offset of index `index` changes exactly that byte of
/// the top-to-bottom order.
pub proof fn lemma_write_through(linesize: int, height: int, memory: Seq<u8>, index: int)
    requires
        height >= 0,
        memory.len() == abs_int(linesize) * height,
        0 <= index < abs_int(linesize) * height,
    ensures
        forall|v: u8|
            #[trigger] plane_bytes(linesize, height, memory.update(plane_offset(linesize, height, index), v))
                == plane_bytes(linesize, height, memory).update(index, v),
{
    assert forall|v: u8|
        #[trigger] plane_bytes(linesize, height, memory.update(plane_offset(linesize, height, index), v))
            == plane_bytes(linesize, height, memory).update(index, v) by {
        let a = plane_bytes(linesize, height, memory.update(plane_offset(linesize, height, index), v));
        let b = plane_bytes(linesize, height, memory).update(index, v);
        assert forall|j: int| 0 <= j < a.len() implies #[trigger] a[j] == b[j] by {
            lemma_plane_offset_in_bounds(linesize, height, j);
            lemma_plane_offset_in_bounds(linesize, height, index);
            if j != index {
                lemma_plane_offset_injective(linesize, height, j, index);
            }
        }
        assert(a =~= b);
    }
}

/// `bytes` with `row` written over it from index `start` on.
pub open spec fn spec_with_row(bytes: Seq<u8>, start: int, row: Seq<u8>) -> Seq<u8> {
    Seq::new(bytes.len(), |j: int| if start <= j < start + row.len() { row[j - start] } else { bytes[j] })
}

/// The absolute value of an integer.
pub open spec fn abs_int(x: int) -> int {
    if x < 0 {
        -x
    } else {
        x
    }
}

/// The data of one plane of a frame: `height` rows of `|linesize|` bytes each.
///
/// The bytes are held in memory order. A negative line size means the rows are
/// stored bottom-to-top; indexing and rows are always given top-to-bottom.
#[derive(Clone, Debug, PartialEq, Eq)]
pub struct FrameData {
    memory: Vec<u8>,
    linesize: i32,
    height: i32,
}

impl FrameData {
    /// The line size, as given.
    pub closed spec fn spec_linesize(&self) -> int {
        self.linesize as int
    }

    /// The number of rows.
    pub closed spec fn spec_height(&self) -> int {
        self.height as int
    }

    /// The bytes in memory order.
    pub closed spec fn spec_memory(&self) -> Seq<u8> {
        self.memory@
    }

    /// The length of a row in bytes.
    pub open spec fn spec_stride(&self) -> int {
        abs_int(self.spec_linesize())
    }

    /// The number of bytes of the plane.
    pub open spec fn spec_len(&self) -> int {
        self.spec_stride() * self.spec_height()
    }

    /// Whether the plane is well formed: a non-negative height, a line size whose
    /// absolute value fits in an `i32`, and exactly `|linesize| * height` bytes of
    /// memory, a number that fits in an `i32`.
    pub open spec fn wf(&self) -> bool {
        &&& self.spec_height() >= 0
        &&& self.spec_linesize() != i32::MIN
        &&& self.spec_len() <= i32::MAX
        &&& self.spec_memory().len() == self.spec_len()
    }

    /// The memory offset of the `i`-th byte in top-to-bottom order.
    pub open spec fn spec_offset(&self, i: int) -> int {
        plane_offset(self.spec_linesize(), self.spec_height(), i)
    }

    /// The memory offset at which row `row` starts.
    pub open spec fn spec_row_start(&self, row: int) -> int {
        row_start(self.spec_linesize(), self.spec_height(), row)
    }

    /// The bytes of row `row`.
    pub open spec fn spec_row(&self, row: int) -> Seq<u8> {
        self.spec_memory().subrange(self.spec_row_start(row), self.spec_row_start(row) + self.spec_stride())
    }

    /// Whether `memory`, `linesize` and `height` make a well-formed plane.
    pub open spec fn valid_parts(memory: Seq<u8>, linesize: i32, height: i32) -> bool {
        &&& height >= 0
        &&& linesize != i32::MIN
        &&& abs_int(linesize as int) * height <= i32::MAX
        &&& memory.len() == abs_int(linesize as int) * height
    }
}

impl View for FrameData {
    type V = Seq<u8>;

    /// The bytes of the plane in top-to-bottom order.
    open spec fn view(&self) -> Seq<u8> {
        plane_bytes(self.spec_linesize(), self.spec_height(), self.spec_memory())
    }
}

impl FrameData {
    /// Builds a plane from its bytes in memory order, its line size and its height.
    /// Returns `None` unless the memory holds exactly `|linesize| * height` bytes,
    /// the height is not negative and that length fits in an `i32`.
    pub fn new(memory: Vec<u8>, linesize: i32, height: i32) -> (r: Option<FrameData>)
        ensures
            r is Some <==> FrameData::valid_parts(memory@, linesize, height),
            r matches Some(d) ==> d.wf() && d.spec_memory() == memory@ && d.spec_linesize()
                == linesize && d.spec_height() == height,
    {
        if height < 0 || linesize == i32::MIN {
            return None;
        }
        let stride: u64 = if linesize < 0 {
            (-linesize) as u64
        } else {
            linesize as u64
        };
        proof {
            vstd::arithmetic::mul::lemma_mul_upper_bound(
                stride as int,
                0x8000_0000,
                height as int,
                0x8000_0000,
            );
        }
        let total: u64 = stride * (height as u64);
        if total > i32::MAX as u64 || memory.len() as u64 != total {
            return None;
        }
        Some(FrameData { memory, linesize, height })
    }

    /// Returns the number of rows.
    pub fn height(&self) -> (r: i32)
        ensures
            r == self.spec_height(),
    {
        self.height
    }

    /// Returns the line size in bytes; negative when the rows are stored bottom-to-top.
    pub fn linesize(&self) -> (r: i32)
        ensures
            r == self.spec_linesize(),
    {
        self.linesize
    }

    /// Returns the number of bytes of the plane.
    pub fn len(&self) -> (r: usize)
        requires
            self.wf(),
        ensures
            r == self.spec_len(),
            r == self@.len(),
    {
        self.memory.len()
    }

    /// Returns `true` when the plane holds no bytes.
    pub fn is_empty(&self) -> (r: bool)
        requires
            self.wf(),
        ensures
            r == (self.spec_len() == 0),
    {
        self.memory.len() == 0
    }

    /// Computes the memory offset of the byte at `index` (top-to-bottom order).
    fn offset_of(&self, index: usize) -> (r: usize)
        requires
            self.wf(),
            index < self.spec_len(),
        ensures
            r == self.spec_offset(index as int),
            r < self.spec_memory().len(),
    {
        proof {
            lemma_plane_offset_in_bounds(self.linesize as int, self.height as int, index as int);
        }
        if self.linesize >= 0 {
            index
        } else {
            let stride: usize = (-self.linesize) as usize;
            let line: usize = index / stride;
            let pos: usize = index % stride;
            let back: usize = (self.height as usize) - 1 - line;
            proof {
                assert(back * stride + pos == self.spec_offset(index as int));
            }
            back * stride + pos
        }
    }

    /// Returns the byte at `index` (top-to-bottom order).
    pub fn at(&self, index: usize) -> (r: u8)
        requires
            self.wf(),
            index < self.spec_len(),
        ensures
            r == self@[index as int],
    {
        let off = self.offset_of(index);
        self.memory[off]
    }

    /// Returns the byte at `index`, or `None` when the index is past the end.
    pub fn get(&self, index: usize) -> (r: Option<&u8>)
        requires
            self.wf(),
        ensures
            index < self.spec_len() ==> r == Some(&self@[index as int]),
            index >= self.spec_len() ==> r is None,
    {
        if index < self.memory.len() {
            let off = self.offset_of(index);
            Some(&self.memory[off])
        } else {
            None
        }
    }

    /// Writes `value` at `index` (top-to-bottom order). The line size and height stay
    /// the same; only that byte changes.
    pub fn set(&mut self, index: usize, value: u8)
        requires
            old(self).wf(),
            index < old(self).spec_len(),
        ensures
            final(self).wf(),
            final(self).spec_linesize() == old(self).spec_linesize(),
            final(self).spec_height() == old(self).spec_height(),
            final(self)@ == old(self)@.update(index as int, value),
    {
        let off = self.offset_of(index);
        self.memory.set(off, value);
        proof {
            let l = self.linesize as int;
            let h = self.height as int;
            assert forall|j: int| 0 <= j < self.spec_len() implies #[trigger] self@[j] == old(
                self,
            )@.update(index as int, value)[j] by {
                lemma_plane_offset_in_bounds(l, h, j);
                if j != index {
                    lemma_plane_offset_injective(l, h, j, index as int);
                }
            }
            assert(self@ =~= old(self)@.update(index as int, value));
        }
    }

    /// Returns a mutable reference to the byte at `index`, or `None` when the index
    /// is past the end. Whatever is written through the reference lands at that index
    /// and nowhere else.
    pub fn get_mut(&mut self, index: usize) -> (r: Option<&mut u8>)
        requires
            old(self).wf(),
        ensures
            index >= old(self).spec_len() ==> r is None && *final(self) == *old(self),
            index < old(self).spec_len() ==> r is Some,
            r matches Some(x) ==> *x == old(self)@[index as int],
            r matches Some(x) ==> final(self).wf() && final(self).spec_linesize()
                == old(self).spec_linesize() && final(self).spec_height() == old(self).spec_height()
                && final(self)@ == old(self)@.update(index as int, *final(x)),
    {
        if index < self.memory.len() {
            let off = self.offset_of(index);
            proof {
                lemma_write_through(self.linesize as int, self.height as int, self.memory@, index as int);
            }
            Some(&mut self.memory[off])
        } else {
            None
        }
    }

    /// Returns row `index` (top-to-bottom order), or `None` when there is no such row.
    pub fn get_row(&self, index: usize) -> (r: Option<&[u8]>)
        requires
            self.wf(),
        ensures
            index >= self.spec_height() ==> r is None,
            index < self.spec_height() ==> (r matches Some(row) && row@ == self.spec_row(
                index as int,
            )),
    {
        if index >= self.height as usize {
            return None;
        }
        let stride: usize = if self.linesize < 0 {
            (-self.linesize) as usize
        } else {
            self.linesize as usize
        };
        let start: usize = if self.linesize >= 0 {
            proof {
                assert(index * stride <= (self.height - 1) * stride) by (nonlinear_arith)
                    requires
                        index < self.height,
                        stride >= 0,
                ;
                assert((self.height - 1) * stride + stride == stride * self.height) by (
                nonlinear_arith);
            }
            index * stride
        } else {
            let back: usize = (self.height as usize) - 1 - index;
            proof {
                assert(back * stride <= (self.height - 1) * stride) by (nonlinear_arith)
                    requires
                        back <= self.height - 1,
                        stride >= 0,
                ;
                assert((self.height - 1) * stride + stride == stride * self.height) by (
                nonlinear_arith);
            }
            back * stride
        };
        Some(vstd::slice::slice_subrange(self.memory.as_slice(), start, start + stride))
    }

    /// Returns the bytes of the plane in memory order (bottom row first for a negative
    /// line size).
    pub fn as_memory(&self) -> (r: &[u8])
        ensures
            r@ == self.spec_memory(),
    {
        self.memory.as_slice()
    }

    /// Writes `row` over row `index` (top-to-bottom order). Returns `false`, and
    /// changes nothing, when there is no such row or `row` is not one row long.
    pub fn set_row(&mut self, index: usize, row: &[u8]) -> (r: bool)
        requires
            old(self).wf(),
        ensures
            final(self).wf(),
            final(self).spec_linesize() == old(self).spec_linesize(),
            final(self).spec_height() == old(self).spec_height(),
            r == (index < old(self).spec_height() && row@.len() == old(self).spec_stride()),
            r ==> final(self)@ == spec_with_row(old(self)@, index * old(self).spec_stride(), row@),
            !r ==> final(self)@ == old(self)@,
    {
        if index >= self.height as usize {
            return false;
        }
        let stride: usize = if self.linesize < 0 {
            (-self.linesize) as usize
        } else {
            self.linesize as usize
        };
        if row.len() != stride {
            return false;
        }
        proof {
            assert(index * stride + stride <= stride * self.height) by (nonlinear_arith)
                requires
                    index < self.height,
                    stride >= 0,
            ;
        }
        let start: usize = index * stride;
        let ghost before = self@;
        let mut c: usize = 0;
        while c < stride
            invariant
                self.wf(),
                self.linesize == old(self).linesize,
                self.height == old(self).height,
                stride == self.spec_stride(),
                row@.len() == stride,
                start + stride <= self.spec_len(),
                start == index * stride,
                before == old(self)@,
                c <= stride,
                self@ == spec_with_row(before, start as int, row@.subrange(0, c as int)),
            decreases stride - c,
        {
            let ghost prev = self@;
            self.set(start + c, row[c]);
            assert(self@ =~= spec_with_row(before, start as int, row@.subrange(0, c + 1)));
            c = c + 1;
        }
        assert(row@.subrange(0, stride as int) =~= row@);
        true
    }

    /// Fills every byte of the plane with `value`.
    pub fn fill(&mut self, value: u8)
        requires
            old(self).wf(),
        ensures
            final(self).wf(),
            final(self).spec_linesize() == old(self).spec_linesize(),
            final(self).spec_height() == old(self).spec_height(),
            final(self)@ == Seq::new(old(self)@.len(), |i: int| value),
    {
        let n = self.memory.len();
        let mut k: usize = 0;
        while k < n
            invariant
                n == self.memory@.len(),
                n == old(self).memory@.len(),
                self.linesize == old(self).linesize,
                self.height == old(self).height,
                k <= n,
                forall|j: int| 0 <= j < k ==> self.memory@[j] == value,
            decreases n - k,
        {
            self.memory.set(k, value);
            k = k + 1;
        }
        proof {
            assert forall|j: int| 0 <= j < self.spec_len() implies #[trigger] self@[j] == value by {
                lemma_plane_offset_in_bounds(self.linesize as int, self.height as int, j);
            }
            assert(self@ =~= Seq::new(old(self)@.len(), |i: int| value));
        }
    }
}

/// Row `row` of a well-formed plane holds, in order, the bytes `row * stride ..
/// (row + 1) * stride` of the top-to-bottom byte order, whatever the sign of the
/// line size.
pub proof fn lemma_row_matches_bytes(d: FrameData, row: int, col: int)
    requires
        d.wf(),
        0 <= row < d.spec_height(),
        0 <= col < d.spec_stride(),
    ensures
        d.spec_row(row)[col] == d@[row * d.spec_stride() + col],
{
    let s = d.spec_stride();
    let h = d.spec_height();
    let i = row * s + col;
    assert(0 <= i < s * h) by (nonlinear_arith)
        requires
            0 <= row < h,
            0 <= col < s,
            i == row * s + col,
    ;
    lemma_plane_offset_in_bounds(d.spec_linesize(), h, i);
    vstd::arithmetic::div_mod::lemma_fundamental_div_mod_converse(i, s, row, col);
    assert(d.spec_row_start(row) + s <= s * h) by (nonlinear_arith)
        requires
            d.spec_row_start(row) == (if d.spec_linesize() >= 0 {
                row * d.spec_linesize()
            } else {
                (h - 1 - row) * (-d.spec_linesize())
            }),
            s == (if d.spec_linesize() < 0 {
                -d.spec_linesize()
            } else {
                d.spec_linesize()
            }),
            0 <= row < h,
    ;
    assert(d.spec_row_start(row) >= 0) by (nonlinear_arith)
        requires
            d.spec_row_start(row) == (if d.spec_linesize() >= 0 {
                row * d.spec_linesize()
            } else {
                (h - 1 - row) * (-d.spec_linesize())
            }),
            0 <= row < h,
    ;
}

/// Every byte of a well-formed plane lives at its own memory offset: reading all
/// bytes in top-to-bottom order visits each byte of memory exactly once.
pub proof fn lemma_offsets_are_a_permutation(d: FrameData, i: int, j: int)
    requires
        d.wf(),
        0 <= i < d.spec_len(),
        0 <= j < d.spec_len(),
    ensures
        0 <= d.spec_offset(i) < d.spec_memory().len(),
        d.spec_offset(i) == d.spec_offset(j) <==> i == j,
{
    lemma_plane_offset_in_bounds(d.spec_linesize(), d.spec_height(), i);
    if i != j {
        lemma_plane_offset_injective(d.spec_linesize(), d.spec_height(), i, j);
    }
}

/// A plane's parts are valid exactly when the height is not negative, the line size
/// is not `i32::MIN`, and the memory holds `|linesize|` bytes for every row, a count
/// that fits in an `i32`; a plane built from valid parts holds the bytes of its
/// memory in order, row by row, when its line size is not negative.
pub proof fn lemma_valid_parts_means(memory: Seq<u8>, linesize: i32, height: i32)
    ensures
        FrameData::valid_parts(memory, linesize, height) <==> (height >= 0 && linesize != i32::MIN && (if linesize
            < 0 {
            -linesize
        } else {
            linesize as int
        }) * height <= i32::MAX && memory.len() == (if linesize < 0 {
            -linesize
        } else {
            linesize as int
        }) * height),
        FrameData::valid_parts(memory, linesize, height) && linesize >= 0 ==> plane_bytes(
            linesize as int,
            height as int,
            memory,
        ) == memory,
{
    if FrameData::valid_parts(memory, linesize, height) && linesize >= 0 {
        assert(plane_bytes(linesize as int, height as int, memory) =~= memory);
    }
}

/// Writing a row gives back that row and leaves every other row: after
/// `set_row(index, row)` row `index` reads `row`, and the bytes of the other rows are
/// unchanged.
pub proof fn lemma_row_written(before: Seq<u8>, stride: int, index: int, row: Seq<u8>, j: int)
    requires
        stride >= 0,
        row.len() == stride,
        0 <= j < before.len(),
    ensures
        spec_with_row(before, index * stride, row).len() == before.len(),
        index * stride <= j < index * stride + stride ==> spec_with_row(before, index * stride, row)[j]
            == row[j - index * stride],
        !(index * stride <= j < index * stride + stride) ==> spec_with_row(before, index * stride, row)[j]
            == before[j],
{
}

/// The line size and height of a plane are `i32` values.
pub proof fn lemma_plane_dimensions(d: FrameData)
    ensures
        i32::MIN <= d.spec_linesize() <= i32::MAX,
        i32::MIN <= d.spec_height() <= i32::MAX,
        (d.spec_linesize() as i32) as int == d.spec_linesize(),
        (d.spec_height() as i32) as int == d.spec_height(),
{
}

} // verus!
