//! The `omni.tensor` dialect: element and tensor types, operations, modules,
//! and the lifter that turns captured PTX into a module.
use crate::strmap::StrMap;
use crate::text::{
    contains_bytes, contains_subslice, decimal, is_valid_utf8, push_char, push_decimal,
    push_signed_decimal, push_str, signed_decimal,
};
use vstd::prelude::*;
use vstd::string::*;
use vstd::utf8::valid_utf8;

verus! {

broadcast use vstd::seq_lib::group_seq_properties;

/// Scalar element types of the dialect.
#[derive(Debug, Clone, Copy, PartialEq, Eq, Hash, Structural)]
pub enum ElementType {
    /// 8-bit unsigned integer.
    U8,
    /// 8-bit integer.
    I8,
    /// 16-bit integer.
    I16,
    /// 32-bit integer.
    I32,
    /// 64-bit integer.
    I64,
    /// IEEE half precision.
    F16,
    /// Brain float 16.
    BF16,
    /// IEEE single precision.
    F32,
    /// IEEE double precision.
    F64,
    /// 8-bit float (E4M3).
    F8E4M3,
    /// Boolean.
    Bool,
    /// Not yet inferred.
    Opaque,
}

impl ElementType {
    /// Size of one element in bytes.
    pub open spec fn width(self) -> nat {
        match self {
            ElementType::U8 | ElementType::I8 | ElementType::Bool | ElementType::F8E4M3 => 1,
            ElementType::I16 | ElementType::F16 | ElementType::BF16 => 2,
            ElementType::I32 | ElementType::F32 => 4,
            ElementType::I64 | ElementType::F64 => 8,
            ElementType::Opaque => 0,
        }
    }

    /// Whether the type is a floating-point type.
    pub open spec fn floating(self) -> bool {
        match self {
            ElementType::F8E4M3 | ElementType::F16 | ElementType::BF16 | ElementType::F32
            | ElementType::F64 => true,
            _ => false,
        }
    }

    /// The MLIR spelling of the type.
    pub open spec fn mlir(self) -> Seq<char> {
        match self {
            ElementType::U8 => "ui8"@,
            ElementType::I8 => "i8"@,
            ElementType::I16 => "i16"@,
            ElementType::I32 => "i32"@,
            ElementType::I64 => "i64"@,
            ElementType::F16 => "f16"@,
            ElementType::BF16 => "bf16"@,
            ElementType::F32 => "f32"@,
            ElementType::F64 => "f64"@,
            ElementType::F8E4M3 => "f8E4M3FN"@,
            ElementType::Bool => "i1"@,
            ElementType::Opaque => "opaque"@,
        }
    }

    /// Returns the size of one element in bytes.
    pub fn byte_width(&self) -> (r: usize)
        ensures
            r == self.width(),
    {
        match self {
            ElementType::U8 | ElementType::I8 | ElementType::Bool | ElementType::F8E4M3 => 1,
            ElementType::I16 | ElementType::F16 | ElementType::BF16 => 2,
            ElementType::I32 | ElementType::F32 => 4,
            ElementType::I64 | ElementType::F64 => 8,
            ElementType::Opaque => 0,
        }
    }

    /// Returns true if this is a floating-point type.
    pub fn is_float(&self) -> (r: bool)
        ensures
            r == self.floating(),
    {
        match self {
            ElementType::F8E4M3 | ElementType::F16 | ElementType::BF16 | ElementType::F32
            | ElementType::F64 => true,
            _ => false,
        }
    }

    /// Returns the MLIR type string.
    pub fn mlir_name(&self) -> (r: &'static str)
        ensures
            r@ == self.mlir(),
    {
        match self {
            ElementType::U8 => "ui8",
            ElementType::I8 => "i8",
            ElementType::I16 => "i16",
            ElementType::I32 => "i32",
            ElementType::I64 => "i64",
            ElementType::F16 => "f16",
            ElementType::BF16 => "bf16",
            ElementType::F32 => "f32",
            ElementType::F64 => "f64",
            ElementType::F8E4M3 => "f8E4M3FN",
            ElementType::Bool => "i1",
            ElementType::Opaque => "opaque",
        }
    }
}

/// The bit pattern of an IEEE-754 double, as carried by attributes and
/// operations whose payload is a floating-point constant.
#[derive(Debug, Clone, Copy, PartialEq, Eq, Hash, Structural)]
pub struct F64Bits(pub u64);

/// Memory layout encoding of a tensor.
#[derive(Debug, Clone, PartialEq, Eq, Hash)]
pub enum MemoryEncoding {
    /// Row-major (C order).
    RowMajor,
    /// Column-major (Fortran order).
    ColumnMajor,
    /// Hardware-specific tiled layout.
    Tiled { tile_shape: Vec<i64> },
    /// Compressed sparse.
    Sparse,
}

/// The mathematical content of a `MemoryEncoding`.
pub enum EncodingView {
    RowMajor,
    ColumnMajor,
    Tiled { tile_shape: Seq<i64> },
    Sparse,
}

impl View for MemoryEncoding {
    type V = EncodingView;

    open spec fn view(&self) -> EncodingView {
        match self {
            MemoryEncoding::RowMajor => EncodingView::RowMajor,
            MemoryEncoding::ColumnMajor => EncodingView::ColumnMajor,
            MemoryEncoding::Tiled { tile_shape } => EncodingView::Tiled { tile_shape: tile_shape@ },
            MemoryEncoding::Sparse => EncodingView::Sparse,
        }
    }
}

impl MemoryEncoding {
    /// A copy with the same content.
    pub fn deep_copy(&self) -> (r: Self)
        ensures
            r@ == self@,
    {
        match self {
            MemoryEncoding::RowMajor => MemoryEncoding::RowMajor,
            MemoryEncoding::ColumnMajor => MemoryEncoding::ColumnMajor,
            MemoryEncoding::Tiled { tile_shape } => {
                let mut v: Vec<i64> = Vec::new();
                let mut i: usize = 0;
                while i < tile_shape.len()
                    invariant
                        i <= tile_shape@.len(),
                        v@ == tile_shape@.subrange(0, i as int),
                    decreases tile_shape@.len() - i,
                {
                    v.push(tile_shape[i]);
                    i = i + 1;
                }
                assert(v@ =~= tile_shape@);
                MemoryEncoding::Tiled { tile_shape: v }
            },
            MemoryEncoding::Sparse => MemoryEncoding::Sparse,
        }
    }
}

/// A ranked tensor type; `None` marks a dynamic dimension.
#[derive(Debug, Clone, PartialEq, Eq, Hash)]
pub struct TensorType {
    /// Dimensions.
    pub shape: Vec<Option<i64>>,
    /// Element scalar type.
    pub element_type: ElementType,
    /// Memory layout encoding.
    pub encoding: MemoryEncoding,
}

/// The mathematical content of a `TensorType`.
pub struct TensorTypeView {
    pub shape: Seq<Option<i64>>,
    pub element_type: ElementType,
    pub encoding: EncodingView,
}

impl View for TensorType {
    type V = TensorTypeView;

    open spec fn view(&self) -> TensorTypeView {
        TensorTypeView {
            shape: self.shape@,
            element_type: self.element_type,
            encoding: self.encoding@,
        }
    }
}

/// Product of the dimensions, or `None` when one of them is dynamic.
pub open spec fn dims_product(shape: Seq<Option<i64>>) -> Option<int>
    decreases shape.len(),
{
    if shape.len() == 0 {
        Some(1)
    } else {
        match dims_product(shape.drop_last()) {
            Some(p) => match shape.last() {
                Some(d) => Some(p * d),
                None => None,
            },
            None => None,
        }
    }
}

/// Every partial product met while multiplying the dimensions left to right
/// fits in an `i64`.
pub open spec fn product_fits(shape: Seq<Option<i64>>) -> bool {
    forall|n: int|
        0 <= n <= shape.len() ==> match #[trigger] dims_product(shape.take(n)) {
            Some(p) => i64::MIN <= p <= i64::MAX,
            None => true,
        }
}

/// The textual form of the dimensions: decimal or `?`, separated by `x`.
pub open spec fn dims_text(shape: Seq<Option<i64>>) -> Seq<char>
    decreases shape.len(),
{
    if shape.len() == 0 {
        seq![]
    } else {
        let d = match shape.last() {
            Some(v) => signed_decimal(v as int),
            None => seq!['?'],
        };
        if shape.len() == 1 {
            d
        } else {
            dims_text(shape.drop_last()) + seq!['x'] + d
        }
    }
}

/// The textual form of a tensor type, e.g. `tensor<128x256xf16>`.
pub open spec fn tensor_text(t: TensorTypeView) -> Seq<char> {
    "tensor<"@ + dims_text(t.shape) + "x"@ + t.element_type.mlir() + ">"@
}

impl TensorType {
    /// Creates a tensor type whose dimensions are all static.
    pub fn static_tensor(shape: Vec<i64>, element_type: ElementType) -> (r: Self)
        ensures
            r.shape@ == shape@.map_values(|d: i64| Some(d)),
            r.element_type == element_type,
            r.encoding == MemoryEncoding::RowMajor,
    {
        let mut dims: Vec<Option<i64>> = Vec::new();
        let mut i: usize = 0;
        while i < shape.len()
            invariant
                i <= shape@.len(),
                dims@ == shape@.subrange(0, i as int).map_values(|d: i64| Some(d)),
            decreases shape@.len() - i,
        {
            dims.push(Some(shape[i]));
            i = i + 1;
            proof {
                assert(dims@ =~= shape@.subrange(0, i as int).map_values(|d: i64| Some(d)));
            }
        }
        assert(shape@.subrange(0, i as int) =~= shape@);
        TensorType { shape: dims, element_type, encoding: MemoryEncoding::RowMajor }
    }

    /// Creates a tensor type of the given rank whose dimensions are all dynamic.
    pub fn dynamic(rank: usize, element_type: ElementType) -> (r: Self)
        ensures
            r.shape@ == Seq::new(rank as nat, |i: int| None::<i64>),
            r.element_type == element_type,
            r.encoding == MemoryEncoding::RowMajor,
    {
        let mut dims: Vec<Option<i64>> = Vec::new();
        let mut i: usize = 0;
        while i < rank
            invariant
                i <= rank,
                dims@ == Seq::new(i as nat, |j: int| None::<i64>),
            decreases rank - i,
        {
            dims.push(None);
            i = i + 1;
            proof {
                assert(dims@ =~= Seq::new(i as nat, |j: int| None::<i64>));
            }
        }
        TensorType { shape: dims, element_type, encoding: MemoryEncoding::RowMajor }
    }

    /// Returns the tensor rank.
    pub fn rank(&self) -> (r: usize)
        ensures
            r == self.shape@.len(),
    {
        self.shape.len()
    }

    /// Returns the number of elements when every dimension is static.
    pub fn num_elements(&self) -> (r: Option<i64>)
        requires
            product_fits(self.shape@),
        ensures
            match dims_product(self.shape@) {
                Some(p) => r == Some(p as i64),
                None => r is None,
            },
    {
        let mut acc: i64 = 1;
        let mut i: usize = 0;
        while i < self.shape.len()
            invariant
                i <= self.shape@.len(),
                product_fits(self.shape@),
                dims_product(self.shape@.take(i as int)) == Some(acc as int),
            decreases self.shape@.len() - i,
        {
            assert(self.shape@.take(i + 1).drop_last() =~= self.shape@.take(i as int));
            match self.shape[i] {
                Some(d) => {
                    assert(dims_product(self.shape@.take(i + 1)) == Some(acc * d));
                    acc = acc * d;
                },
                None => {
                    proof {
                        lemma_product_none_extends(self.shape@, i as int + 1);
                    }
                    return None;
                },
            }
            i = i + 1;
        }
        assert(self.shape@.take(i as int) =~= self.shape@);
        Some(acc)
    }

    /// Returns the total size in bytes when every dimension is static.
    pub fn byte_size(&self) -> (r: Option<usize>)
        requires
            product_fits(self.shape@),
            match dims_product(self.shape@) {
                Some(p) => (p as i64 as usize) * self.element_type.width() <= usize::MAX,
                None => true,
            },
        ensures
            match dims_product(self.shape@) {
                Some(p) => r == Some(((p as i64 as usize) * self.element_type.width()) as usize),
                None => r is None,
            },
    {
        match self.num_elements() {
            Some(n) => Some(n as usize * self.element_type.byte_width()),
            None => None,
        }
    }

    /// A copy with the same content.
    pub fn deep_copy(&self) -> (r: Self)
        ensures
            r@ == self@,
    {
        let mut dims: Vec<Option<i64>> = Vec::new();
        let mut i: usize = 0;
        while i < self.shape.len()
            invariant
                i <= self.shape@.len(),
                dims@ == self.shape@.subrange(0, i as int),
            decreases self.shape@.len() - i,
        {
            dims.push(self.shape[i]);
            i = i + 1;
        }
        assert(dims@ =~= self.shape@);
        TensorType {
            shape: dims,
            element_type: self.element_type,
            encoding: self.encoding.deep_copy(),
        }
    }

    /// Renders the type in MLIR syntax, e.g. `tensor<128x256xf16>`.
    pub fn to_string(&self) -> (r: String)
        ensures
            r@ == tensor_text(self@),
    {
        let mut out = String::new();
        push_str(&mut out, "tensor<");
        let ghost prefix = out@;
        let mut i: usize = 0;
        while i < self.shape.len()
            invariant
                i <= self.shape@.len(),
                prefix == "tensor<"@,
                out@ == prefix + dims_text(self.shape@.take(i as int)),
            decreases self.shape@.len() - i,
        {
            let ghost before = out@;
            if i > 0 {
                push_char(&mut out, 'x');
            }
            match self.shape[i] {
                Some(d) => push_signed_decimal(&mut out, d),
                None => push_char(&mut out, '?'),
            }
            proof {
                let t = self.shape@.take(i + 1);
                assert(t.drop_last() =~= self.shape@.take(i as int));
                assert(t.last() == self.shape@[i as int]);
                if i == 0 {
                    assert(self.shape@.take(0) =~= Seq::<Option<i64>>::empty());
                    assert(out@ =~= prefix + dims_text(t));
                } else {
                    assert(out@ =~= prefix + dims_text(t));
                }
            }
            i = i + 1;
        }
        assert(self.shape@.take(i as int) =~= self.shape@);
        push_str(&mut out, "x");
        push_str(&mut out, self.element_type.mlir_name());
        push_str(&mut out, ">");
        assert(out@ =~= tensor_text(self@));
        out
    }
}

/// Unary mathematical functions.
#[derive(Debug, Clone, Copy, PartialEq, Eq, Structural)]
pub enum UnaryFunc {
    Exp,
    Log,
    Sqrt,
    Rsqrt,
    Abs,
    Neg,
    Ceil,
    Floor,
    Round,
    Cos,
    Sin,
    Tan,
    Erf,
}

/// Binary mathematical functions.
#[derive(Debug, Clone, Copy, PartialEq, Eq, Structural)]
pub enum BinaryFunc {
    Pow,
    Max,
    Min,
    Mod,
    Atan2,
}

/// Attribute values of operations and modules.
#[derive(Debug, Clone, PartialEq)]
pub enum AttrValue {
    /// An integer.
    Int(i64),
    /// A floating-point number, by its bit pattern.
    Float(F64Bits),
    /// A boolean.
    Bool(bool),
    /// A string.
    String(String),
    /// A list of integers.
    IntList(Vec<i64>),
}

/// The operation kinds of the dialect.
#[derive(Debug, Clone, PartialEq)]
pub enum OpKind {
    /// General matrix multiplication.
    MatMul,
    /// Batched matrix multiplication.
    BatchedMatMul,
    /// Matrix-vector product.
    Gemv,
    /// N-D convolution.
    Conv { num_spatial_dims: usize },
    /// Transposed convolution.
    ConvTranspose { num_spatial_dims: usize },
    /// Depthwise convolution.
    DepthwiseConv,
    /// Scaled dot-product attention.
    ScaledDotProductAttention { causal: bool },
    /// Multi-head attention.
    MultiHeadAttention { num_heads: u32 },
    /// Element-wise addition.
    Add,
    /// Element-wise multiplication.
    Mul,
    /// Element-wise division.
    Div,
    /// Element-wise subtraction.
    Sub,
    /// Element-wise unary function.
    UnaryFunc { func: UnaryFunc },
    /// Element-wise binary function.
    BinaryFunc { func: BinaryFunc },
    /// Rectified linear unit.
    Relu,
    /// Sigmoid.
    Sigmoid,
    /// Hyperbolic tangent.
    Tanh,
    /// Gaussian error linear unit.
    Gelu,
    /// SiLU / Swish.
    Silu,
    /// Softmax over an axis.
    Softmax { axis: i32 },
    /// Layer normalization.
    LayerNorm { eps: F64Bits },
    /// Group normalization.
    GroupNorm { num_groups: u32, eps: F64Bits },
    /// RMS normalization.
    RmsNorm { eps: F64Bits },
    /// Sum reduction.
    ReduceSum { axes: Vec<i32>, keep_dims: bool },
    /// Mean reduction.
    ReduceMean { axes: Vec<i32>, keep_dims: bool },
    /// Max reduction.
    ReduceMax { axes: Vec<i32>, keep_dims: bool },
    /// Reshape.
    Reshape,
    /// Transpose axes.
    Transpose { perm: Vec<u32> },
    /// Concatenate along an axis.
    Concat { axis: i32 },
    /// Split along an axis.
    Split { axis: i32, split_sizes: Vec<i64> },
    /// Broadcast.
    Broadcast,
    /// Gather / embedding lookup.
    Gather { axis: i32 },
    /// Scatter / embedding update.
    Scatter { axis: i32 },
    /// Explicit memory copy.
    MemCopy,
    /// Fill with a constant.
    Fill { value: F64Bits },
    /// An unlifted operation, identified by the hash of its PTX.
    Opaque { ptx_hash: u64 },
}

/// One operation of a module.
#[derive(Debug, Clone)]
pub struct OmniOp {
    /// Operation id within its module.
    pub id: u64,
    /// Operation kind.
    pub kind: OpKind,
    /// Input SSA value names.
    pub inputs: Vec<String>,
    /// Output SSA value name.
    pub output: String,
    /// Static attributes.
    pub attrs: StrMap<AttrValue>,
    /// Output tensor type.
    pub result_type: TensorType,
}

/// The names of a list of strings, as character sequences.
pub open spec fn names(v: Seq<String>) -> Seq<Seq<char>> {
    v.map_values(|s: String| s@)
}

/// Whether two operation kinds carry the same content: the same variant
/// with equal fields, lists compared by their elements.
pub open spec fn same_kind(a: OpKind, b: OpKind) -> bool {
    match a {
        OpKind::ReduceSum { axes: x, keep_dims: k } => b matches OpKind::ReduceSum { axes: y, keep_dims: l }
            && x@ == y@ && k == l,
        OpKind::ReduceMean { axes: x, keep_dims: k } => b matches OpKind::ReduceMean { axes: y, keep_dims: l }
            && x@ == y@ && k == l,
        OpKind::ReduceMax { axes: x, keep_dims: k } => b matches OpKind::ReduceMax { axes: y, keep_dims: l }
            && x@ == y@ && k == l,
        OpKind::Transpose { perm: x } => b matches OpKind::Transpose { perm: y } && x@ == y@,
        OpKind::Split { axis: x, split_sizes: s } => b matches OpKind::Split { axis: y, split_sizes: t }
            && x == y && s@ == t@,
        _ => a == b,
    }
}

/// Whether two attribute values carry the same content.
pub open spec fn same_attr(a: AttrValue, b: AttrValue) -> bool {
    match a {
        AttrValue::String(x) => b matches AttrValue::String(y) && x@ == y@,
        AttrValue::IntList(x) => b matches AttrValue::IntList(y) && x@ == y@,
        _ => a == b,
    }
}

/// Whether two attribute maps have the same keys with the same content.
pub open spec fn same_attrs(a: Map<Seq<char>, AttrValue>, b: Map<Seq<char>, AttrValue>) -> bool {
    &&& a.dom() == b.dom()
    &&& forall|k: Seq<char>| #[trigger] a.contains_key(k) ==> same_attr(a[k], b[k])
}

/// Whether two operations carry the same content: id, kind, input and
/// output names, attributes and result type.
pub open spec fn same_op(a: OmniOp, b: OmniOp) -> bool {
    &&& a.id == b.id
    &&& same_kind(a.kind, b.kind)
    &&& names(a.inputs@) == names(b.inputs@)
    &&& a.output@ == b.output@
    &&& same_attrs(a.attrs@, b.attrs@)
    &&& a.result_type@ == b.result_type@
}

/// A copy of a list of plain values.
fn copy_vec<T: Copy>(v: &Vec<T>) -> (r: Vec<T>)
    ensures
        r@ == v@,
{
    let mut r: Vec<T> = Vec::new();
    let mut i: usize = 0;
    while i < v.len()
        invariant
            i <= v@.len(),
            r@ == v@.take(i as int),
        decreases v@.len() - i,
    {
        r.push(v[i]);
        i = i + 1;
    }
    assert(r@ =~= v@);
    r
}

/// A copy of a list of strings.
fn copy_strings(v: &Vec<String>) -> (r: Vec<String>)
    ensures
        names(r@) == names(v@),
{
    let mut r: Vec<String> = Vec::new();
    let mut i: usize = 0;
    while i < v.len()
        invariant
            i <= v@.len(),
            names(r@) == names(v@.take(i as int)),
        decreases v@.len() - i,
    {
        let ghost before = r@;
        r.push(v[i].clone());
        i = i + 1;
        proof {
            assert(names(r@) =~= names(before).push(v@[i - 1]@));
            assert(names(v@.take(i as int)) =~= names(v@.take(i - 1)).push(v@[i - 1]@));
        }
    }
    assert(v@.take(i as int) =~= v@);
    r
}

impl AttrValue {
    /// A copy with the same content.
    pub fn deep_copy(&self) -> (r: Self)
        ensures
            same_attr(*self, r),
    {
        match self {
            AttrValue::Int(v) => AttrValue::Int(*v),
            AttrValue::Float(v) => AttrValue::Float(*v),
            AttrValue::Bool(v) => AttrValue::Bool(*v),
            AttrValue::String(s) => AttrValue::String(s.clone()),
            AttrValue::IntList(v) => AttrValue::IntList(copy_vec(v)),
        }
    }
}

impl OpKind {
    /// A copy with the same content.
    pub fn deep_copy(&self) -> (r: Self)
        ensures
            same_kind(*self, r),
    {
        match self {
            OpKind::MatMul => OpKind::MatMul,
            OpKind::BatchedMatMul => OpKind::BatchedMatMul,
            OpKind::Gemv => OpKind::Gemv,
            OpKind::Conv { num_spatial_dims } => OpKind::Conv { num_spatial_dims: *num_spatial_dims },
            OpKind::ConvTranspose { num_spatial_dims } => OpKind::ConvTranspose { num_spatial_dims: *num_spatial_dims },
            OpKind::DepthwiseConv => OpKind::DepthwiseConv,
            OpKind::ScaledDotProductAttention { causal } => OpKind::ScaledDotProductAttention { causal: *causal },
            OpKind::MultiHeadAttention { num_heads } => OpKind::MultiHeadAttention { num_heads: *num_heads },
            OpKind::Add => OpKind::Add,
            OpKind::Mul => OpKind::Mul,
            OpKind::Div => OpKind::Div,
            OpKind::Sub => OpKind::Sub,
            OpKind::UnaryFunc { func } => OpKind::UnaryFunc { func: *func },
            OpKind::BinaryFunc { func } => OpKind::BinaryFunc { func: *func },
            OpKind::Relu => OpKind::Relu,
            OpKind::Sigmoid => OpKind::Sigmoid,
            OpKind::Tanh => OpKind::Tanh,
            OpKind::Gelu => OpKind::Gelu,
            OpKind::Silu => OpKind::Silu,
            OpKind::Softmax { axis } => OpKind::Softmax { axis: *axis },
            OpKind::LayerNorm { eps } => OpKind::LayerNorm { eps: *eps },
            OpKind::GroupNorm { num_groups, eps } => OpKind::GroupNorm { num_groups: *num_groups, eps: *eps },
            OpKind::RmsNorm { eps } => OpKind::RmsNorm { eps: *eps },
            OpKind::ReduceSum { axes, keep_dims } => OpKind::ReduceSum { axes: copy_vec(axes), keep_dims: *keep_dims },
            OpKind::ReduceMean { axes, keep_dims } => OpKind::ReduceMean { axes: copy_vec(axes), keep_dims: *keep_dims },
            OpKind::ReduceMax { axes, keep_dims } => OpKind::ReduceMax { axes: copy_vec(axes), keep_dims: *keep_dims },
            OpKind::Reshape => OpKind::Reshape,
            OpKind::Transpose { perm } => OpKind::Transpose { perm: copy_vec(perm) },
            OpKind::Concat { axis } => OpKind::Concat { axis: *axis },
            OpKind::Split { axis, split_sizes } => OpKind::Split { axis: *axis, split_sizes: copy_vec(split_sizes) },
            OpKind::Broadcast => OpKind::Broadcast,
            OpKind::Gather { axis } => OpKind::Gather { axis: *axis },
            OpKind::Scatter { axis } => OpKind::Scatter { axis: *axis },
            OpKind::MemCopy => OpKind::MemCopy,
            OpKind::Fill { value } => OpKind::Fill { value: *value },
            OpKind::Opaque { ptx_hash } => OpKind::Opaque { ptx_hash: *ptx_hash },
        }
    }
}

impl OmniOp {
    /// A copy with the same content.
    pub fn deep_copy(&self) -> (r: Self)
        ensures
            same_op(*self, r),
    {
        OmniOp {
            id: self.id,
            kind: self.kind.deep_copy(),
            inputs: copy_strings(&self.inputs),
            output: self.output.clone(),
            attrs: self.attrs.deep_copy(),
            result_type: self.result_type.deep_copy(),
        }
    }
}

/// A module: an ordered list of operations with its SSA type table.
#[derive(Debug)]
pub struct OmniModule {
    /// Operations in topological order.
    pub ops: Vec<OmniOp>,
    /// SSA value name to tensor type.
    pub value_types: StrMap<TensorType>,
    /// Module-level attributes.
    pub attrs: StrMap<AttrValue>,
    /// The id the next pushed operation receives.
    pub next_id: u64,
}

impl OmniModule {
    /// The id the next pushed operation receives.
    pub open spec fn next_op_id(&self) -> nat {
        self.next_id as nat
    }

    /// Creates an empty module.
    pub fn new() -> (m: Self)
        ensures
            m.ops@.len() == 0,
            m.value_types@ == Map::<Seq<char>, TensorType>::empty(),
            m.attrs@ == Map::<Seq<char>, AttrValue>::empty(),
            m.next_op_id() == 0,
    {
        OmniModule {
            ops: Vec::new(),
            value_types: StrMap::new(),
            attrs: StrMap::new(),
            next_id: 0,
        }
    }

    /// Appends an operation, giving it the next id and recording its result
    /// type under its output name. Returns the id.
    pub fn push_op(&mut self, op: OmniOp) -> (id: u64)
        requires
            old(self).next_op_id() < u64::MAX,
        ensures
            id == old(self).next_op_id(),
            final(self).next_op_id() == old(self).next_op_id() + 1,
            final(self).ops@ == old(self).ops@.push(OmniOp { id, ..op }),
            final(self).value_types@.dom() == old(self).value_types@.dom().insert(op.output@),
            final(self).value_types@[op.output@]@ == op.result_type@,
            forall|k: Seq<char>|
                k != op.output@ ==> #[trigger] final(self).value_types@[k] == old(
                    self,
                ).value_types@[k],
            final(self).attrs@ == old(self).attrs@,
    {
        let id = self.next_id;
        let mut op = op;
        op.id = id;
        self.next_id = self.next_id + 1;
        let key = op.output.clone();
        let ty = op.result_type.deep_copy();
        self.value_types.insert(key, ty);
        self.ops.push(op);
        id
    }

    /// Returns the number of operations.
    pub fn op_count(&self) -> (r: usize)
        ensures
            r == self.ops@.len(),
    {
        self.ops.len()
    }

    /// Looks up the tensor type of an SSA value by name.
    pub fn value_type(&self, name: &str) -> (r: Option<&TensorType>)
        ensures
            match r {
                Some(t) => self.value_types@.contains_key(name@) && *t == self.value_types@[name@],
                None => !self.value_types@.contains_key(name@),
            },
    {
        self.value_types.get(name)
    }
}

/// The polynomial hash that identifies an opaque kernel by its bytes.
pub open spec fn poly_hash(bytes: Seq<u8>) -> u64
    decreases bytes.len(),
{
    if bytes.len() == 0 {
        0xcbf29ce484222325u64
    } else {
        poly_hash(bytes.drop_last()).wrapping_mul(0x00000100000001b3u64).wrapping_add(
            bytes.last() as u64,
        )
    }
}

/// Whether the PTX text contains the pattern: only valid UTF-8 is read as
/// text; anything else stands for a binary cubin, which matches no pattern.
pub open spec fn ptx_mentions(bytes: Seq<u8>, pat: &str) -> bool {
    valid_utf8(bytes) && contains_subslice(bytes, pat.spec_bytes())
}

/// The operation kind the lifter recognizes in a PTX payload.
pub open spec fn lifted_kind(bytes: Seq<u8>) -> OpKind {
    if ptx_mentions(bytes, "mma.sync") || ptx_mentions(bytes, "wmma") {
        OpKind::MatMul
    } else if ptx_mentions(bytes, "ex2.approx") && ptx_mentions(bytes, "div.approx") {
        OpKind::Softmax { axis: -1i32 }
    } else if ptx_mentions(bytes, "tanh.approx") || ptx_mentions(bytes, "ex2.approx") {
        OpKind::UnaryFunc { func: UnaryFunc::Exp }
    } else {
        OpKind::Opaque { ptx_hash: poly_hash(bytes) }
    }
}

/// What the lifter recognizes: a payload that mentions `mma.sync` or `wmma`
/// is a matrix multiplication; otherwise one that mentions both `ex2.approx`
/// and `div.approx` is a softmax, and one that mentions `ex2.approx` without
/// `div.approx` (or `tanh.approx`) is an exponential; softmax is recognized
/// only when both occur; a payload that mentions none of these (a binary
/// cubin mentions nothing) is an opaque kernel identified by its hash.
pub proof fn law_lifted_kind_recognizes_patterns(bytes: Seq<u8>)
    ensures
        ptx_mentions(bytes, "mma.sync") || ptx_mentions(bytes, "wmma") ==> lifted_kind(bytes)
            == OpKind::MatMul,
        lifted_kind(bytes) == OpKind::MatMul ==> ptx_mentions(bytes, "mma.sync") || ptx_mentions(
            bytes,
            "wmma",
        ),
        !ptx_mentions(bytes, "mma.sync") && !ptx_mentions(bytes, "wmma") && ptx_mentions(bytes, "ex2.approx")
            && !ptx_mentions(bytes, "div.approx") ==> lifted_kind(bytes) == (OpKind::UnaryFunc {
            func: UnaryFunc::Exp,
        }),
        !ptx_mentions(bytes, "mma.sync") && !ptx_mentions(bytes, "wmma") && ptx_mentions(bytes, "ex2.approx")
            && ptx_mentions(bytes, "div.approx") ==> lifted_kind(bytes) == (OpKind::Softmax { axis: -1i32 }),
        !ptx_mentions(bytes, "mma.sync") && !ptx_mentions(bytes, "wmma") && ptx_mentions(bytes, "tanh.approx")
            && !(ptx_mentions(bytes, "ex2.approx") && ptx_mentions(bytes, "div.approx")) ==> lifted_kind(bytes)
            == (OpKind::UnaryFunc { func: UnaryFunc::Exp }),
        lifted_kind(bytes) is Softmax ==> ptx_mentions(bytes, "ex2.approx") && ptx_mentions(
            bytes,
            "div.approx",
        ),
        lifted_kind(bytes) is UnaryFunc ==> ptx_mentions(bytes, "ex2.approx") || ptx_mentions(
            bytes,
            "tanh.approx",
        ),
        !ptx_mentions(bytes, "mma.sync") && !ptx_mentions(bytes, "wmma") && !ptx_mentions(bytes, "ex2.approx")
            && !ptx_mentions(bytes, "tanh.approx") ==> lifted_kind(bytes) == (OpKind::Opaque {
            ptx_hash: poly_hash(bytes),
        }),
{
}

/// The SSA value name `v<n>`.
pub open spec fn value_name(n: nat) -> Seq<char> {
    seq!['v'] + decimal(n)
}

/// The type the lifter gives every value: a rank-2 dynamic `f16` tensor.
pub open spec fn lifted_type() -> TensorTypeView {
    TensorTypeView {
        shape: Seq::new(2, |i: int| None::<i64>),
        element_type: ElementType::F16,
        encoding: EncodingView::RowMajor,
    }
}

/// Lifts captured CUDA kernels into `omni.tensor` modules.
pub struct IrLifter {
    value_counter: u64,
}

impl IrLifter {
    /// The counter of fresh SSA value names.
    pub closed spec fn counter(&self) -> nat {
        self.value_counter as nat
    }

    /// Creates a new lifter.
    pub fn new() -> (r: Self)
        ensures
            r.counter() == 0,
    {
        IrLifter { value_counter: 0 }
    }

    /// Generates a fresh SSA value name `v<n>`.
    pub fn fresh_value(&mut self) -> (name: String)
        requires
            old(self).counter() < u64::MAX,
        ensures
            name@ == value_name(old(self).counter()),
            final(self).counter() == old(self).counter() + 1,
    {
        let mut name = String::new();
        push_char(&mut name, 'v');
        push_decimal(&mut name, self.value_counter);
        self.value_counter = self.value_counter + 1;
        name
    }

    /// Hash of raw bytes, used to identify opaque kernels.
    pub fn hash_bytes(bytes: &[u8]) -> (h: u64)
        ensures
            h == poly_hash(bytes@),
    {
        let mut acc: u64 = 0xcbf29ce484222325u64;
        let mut i: usize = 0;
        while i < bytes.len()
            invariant
                i <= bytes@.len(),
                acc == poly_hash(bytes@.take(i as int)),
            decreases bytes@.len() - i,
        {
            assert(bytes@.take(i + 1).drop_last() =~= bytes@.take(i as int));
            acc = acc.wrapping_mul(0x00000100000001b3u64).wrapping_add(bytes[i] as u64);
            i = i + 1;
        }
        assert(bytes@.take(i as int) =~= bytes@);
        acc
    }

    /// Lifts raw PTX bytes into a one-operation module: the recognized kind
    /// applied to two fresh `f16` inputs, producing a fresh output.
    pub fn lift_ptx(&mut self, ptx_bytes: &[u8], kernel_id: u64) -> (m: OmniModule)
        requires
            old(self).counter() + 3 <= u64::MAX,
        ensures
            final(self).counter() == old(self).counter() + 3,
            m.ops@.len() == 1,
            m.next_op_id() == 1,
            ({
                let c = old(self).counter();
                let op = m.ops@[0];
                &&& op.id == 0
                &&& op.kind == lifted_kind(ptx_bytes@)
                &&& names(op.inputs@) == seq![value_name(c), value_name(c + 1)]
                &&& op.output@ == value_name(c + 2)
                &&& op.attrs@ == Map::<Seq<char>, AttrValue>::empty()
                &&& op.result_type@ == lifted_type()
                &&& m.value_types@.dom() == set![value_name(c), value_name(c + 1), value_name(c + 2)]
                &&& forall|k: Seq<char>| #[trigger]
                    m.value_types@.contains_key(k) ==> m.value_types@[k]@ == lifted_type()
                &&& m.attrs@ == Map::<Seq<char>, AttrValue>::empty()
            }),
    {
        let mut module = OmniModule::new();
        let text = is_valid_utf8(ptx_bytes);
        let mma = contains_bytes(ptx_bytes, "mma.sync".as_bytes());
        let wmma = contains_bytes(ptx_bytes, "wmma".as_bytes());
        let ex2 = contains_bytes(ptx_bytes, "ex2.approx".as_bytes());
        let div = contains_bytes(ptx_bytes, "div.approx".as_bytes());
        let tanh = contains_bytes(ptx_bytes, "tanh.approx".as_bytes());
        let op_kind = if text && (mma || wmma) {
            OpKind::MatMul
        } else if text && ex2 && div {
            OpKind::Softmax { axis: -1i32 }
        } else if text && (tanh || ex2) {
            OpKind::UnaryFunc { func: UnaryFunc::Exp }
        } else {
            OpKind::Opaque { ptx_hash: Self::hash_bytes(ptx_bytes) }
        };
        let ghost c = self.counter();
        let input_a = self.fresh_value();
        let input_b = self.fresh_value();
        let output = self.fresh_value();
        let mut inputs: Vec<String> = Vec::new();
        inputs.push(input_a.clone());
        inputs.push(input_b.clone());
        let op = OmniOp {
            id: 0,
            kind: op_kind,
            inputs,
            output,
            attrs: StrMap::new(),
            result_type: TensorType::dynamic(2, ElementType::F16),
        };
        module.value_types.insert(input_a, TensorType::dynamic(2, ElementType::F16));
        module.value_types.insert(input_b, TensorType::dynamic(2, ElementType::F16));
        module.push_op(op);
        proof {
            assert(Seq::new(2, |i: int| None::<i64>) =~= lifted_type().shape);
            assert(names(module.ops@[0].inputs@) =~= seq![value_name(c), value_name(c + 1)]);
            assert(module.value_types@.dom() =~= set![
                value_name(c),
                value_name(c + 1),
                value_name(c + 2),
            ]);
        }
        module
    }
}

proof fn lemma_product_none_extends(shape: Seq<Option<i64>>, n: int)
    requires
        0 < n <= shape.len(),
        shape[n - 1] is None,
    ensures
        dims_product(shape) is None,
    decreases shape.len(),
{
    if n < shape.len() {
        assert(shape.drop_last()[n - 1] == shape[n - 1]);
        lemma_product_none_extends(shape.drop_last(), n);
    }
}

} // verus!
