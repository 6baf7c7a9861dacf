//! The decisions behind the interface macros: which trait methods are remote
//! methods and with which command tag, how each method is called (its call
//! type, from its return type), and how an incoming call is routed to a
//! method. The syntax trees themselves stay with the macro code; here a trait
//! method is described by the plain values these decisions read.
use vstd::prelude::*;

verus! {

/// Command tag of the handler run when a connection comes up.
pub const CONNECT: i32 = 2147483647;
/// Command tag of the handler run when a connection goes down.
pub const DISCONNECT: i32 = 2147483646;
/// Command tag of the handler run when a session is finally dropped.
pub const CLOSED: i32 = 2147483645;

/// What stands inside the brackets of a `#[tag(...)]`.
pub enum TagArg {
    /// An integer literal: its value where it fits an `i32`, else `None`.
    Int(Option<i32>),
    /// A single identifier.
    Ident(String),
    /// Anything else.
    Other,
}

/// One attribute of a trait method.
pub enum Attribute {
    /// An attribute that is not `tag`.
    NotTag,
    /// `#[tag]` or `#[tag = ...]`, without brackets.
    TagWithoutList,
    /// `#[tag(...)]`.
    Tag(TagArg),
}

/// How the return type of a method is written, as far as the call type goes.
pub enum ReturnShape {
    /// No `->`.
    Nothing,
    /// `-> ()`: the unit type, which returns nothing as no `->` does.
    Unit,
    /// A type that is not a path (a tuple, a reference, ...).
    NotPath,
    /// A path; for each segment, whether it is named `Result`, and its arguments.
    Path(Vec<Segment>),
}

/// One segment of a path type.
pub struct Segment {
    /// Whether the segment is named `Result`.
    pub is_result: bool,
    /// Its arguments.
    pub args: SegmentArgs,
}

/// The arguments of a path segment.
pub enum SegmentArgs {
    /// No arguments.
    Plain,
    /// Angle brackets with this many arguments, and whether the first is `()`.
    Angle { count: usize, first_is_unit: bool },
    /// Round brackets, as in `Fn(A) -> B`.
    Paren,
}

/// One parameter of a method.
pub enum Param {
    /// `self`, `&self` or `&mut self`.
    Receiver,
    /// A typed parameter: its type as text, and its name where it is a plain
    /// identifier.
    Typed { ty: String, name: Option<String> },
}

/// One item of a trait.
pub enum TraitItem {
    /// Anything but a method.
    NotMethod,
    /// A method.
    Method(MethodSig),
}

/// What the decisions read of a method.
pub struct MethodSig {
    pub name: String,
    pub attrs: Vec<Attribute>,
    pub is_async: bool,
    pub params: Vec<Param>,
    pub output: ReturnShape,
}

/// A remote method: its command tag, call type, name, and the types and
/// names of its parameters.
pub struct FuncInfo {
    pub tag: i32,
    pub tt: u8,
    pub func_name: String,
    pub args_type: Vec<String>,
    pub input_names: Vec<String>,
}

/// Why an interface description is rejected.
pub enum BuildError {
    /// `#[tag]` without brackets.
    TagWithoutList,
    /// A tag literal that does not fit an `i32`.
    TagOutOfRange,
    /// A tag word other than connect, disconnect and closed.
    UnknownLifecycle(String),
    /// A tag argument that is neither a literal nor a word.
    BadTagArgument,
    /// A tagged method that is not `async`.
    NotAsync { name: String, tag: i32 },
    /// A parameter that is not a plain identifier.
    ParamNotIdent { name: String },
    /// A return type that is not a path.
    NonPathReturn { tag: i32, name: String },
    /// `Result<>`, with no type argument.
    ResultArity { tag: i32, name: String },
    /// `Result` without angle brackets.
    ResultNotGeneric { tag: i32, name: String },
    /// No `Result` in the return type.
    NoResult { tag: i32, name: String },
}

/// What a `BuildError` says, with its names as text.
pub enum BuildErrorView {
    TagWithoutList,
    TagOutOfRange,
    UnknownLifecycle(Seq<char>),
    BadTagArgument,
    NotAsync { name: Seq<char>, tag: i32 },
    ParamNotIdent { name: Seq<char> },
    NonPathReturn { tag: i32, name: Seq<char> },
    ResultArity { tag: i32, name: Seq<char> },
    ResultNotGeneric { tag: i32, name: Seq<char> },
    NoResult { tag: i32, name: Seq<char> },
}

impl View for BuildError {
    type V = BuildErrorView;

    open spec fn view(&self) -> BuildErrorView {
        match self {
            BuildError::TagWithoutList => BuildErrorView::TagWithoutList,
            BuildError::TagOutOfRange => BuildErrorView::TagOutOfRange,
            BuildError::UnknownLifecycle(w) => BuildErrorView::UnknownLifecycle(w@),
            BuildError::BadTagArgument => BuildErrorView::BadTagArgument,
            BuildError::NotAsync { name, tag } => BuildErrorView::NotAsync { name: name@, tag: *tag },
            BuildError::ParamNotIdent { name } => BuildErrorView::ParamNotIdent { name: name@ },
            BuildError::NonPathReturn { tag, name } => BuildErrorView::NonPathReturn { tag: *tag, name: name@ },
            BuildError::ResultArity { tag, name } => BuildErrorView::ResultArity { tag: *tag, name: name@ },
            BuildError::ResultNotGeneric { tag, name } => BuildErrorView::ResultNotGeneric {
                tag: *tag,
                name: name@,
            },
            BuildError::NoResult { tag, name } => BuildErrorView::NoResult { tag: *tag, name: name@ },
        }
    }
}

/// The command tag a lifecycle word stands for.
pub open spec fn lifecycle_tag(word: Seq<char>) -> Option<i32> {
    if word == "connect"@ {
        Some(CONNECT)
    } else if word == "disconnect"@ {
        Some(DISCONNECT)
    } else if word == "closed"@ {
        Some(CLOSED)
    } else {
        None
    }
}

/// The command tag of a lifecycle word.
pub fn tag_for_word(word: &String) -> (res: Option<i32>)
    ensures
        res == lifecycle_tag(word@),
{
    proof {
        reveal_strlit("connect");
        reveal_strlit("disconnect");
        reveal_strlit("closed");
    }
    if *word == String::from_str("connect") {
        Some(CONNECT)
    } else if *word == String::from_str("disconnect") {
        Some(DISCONNECT)
    } else if *word == String::from_str("closed") {
        Some(CLOSED)
    } else {
        None
    }
}

/// What one attribute says about the tag of a method: `None` where it is not
/// a tag attribute; else the tag it gives, or why it gives none.
pub open spec fn tag_outcome(a: Attribute) -> Option<Result<i32, BuildErrorView>> {
    match a {
        Attribute::NotTag => None,
        Attribute::TagWithoutList => Some(Err(BuildErrorView::TagWithoutList)),
        Attribute::Tag(TagArg::Int(v)) => Some(
            match v {
                Some(t) => Ok(t),
                None => Err(BuildErrorView::TagOutOfRange),
            },
        ),
        Attribute::Tag(TagArg::Ident(w)) => Some(
            match lifecycle_tag(w@) {
                Some(t) => Ok(t),
                None => Err(BuildErrorView::UnknownLifecycle(w@)),
            },
        ),
        Attribute::Tag(TagArg::Other) => Some(Err(BuildErrorView::BadTagArgument)),
    }
}

/// The first tag attribute among `attrs` decides: the tag of the method
/// (`Ok(Some(t))`), or the error of a tag that cannot be read; without one the
/// method has no tag (`Ok(None)`).
pub open spec fn tag_of(attrs: Seq<Attribute>) -> Result<Option<i32>, BuildErrorView>
    decreases attrs.len(),
{
    if attrs.len() == 0 {
        Ok(None)
    } else {
        match tag_outcome(attrs[0]) {
            None => tag_of(attrs.subrange(1, attrs.len() as int)),
            Some(Ok(t)) => Ok(Some(t)),
            Some(Err(e)) => Err(e),
        }
    }
}

/// The tag of a method, from the first of its attributes that is a tag
/// attribute; `None` where it has none. A tag is an `i32` literal or one of
/// the words connect, disconnect and closed.
pub fn have_tag(attrs: &Vec<Attribute>) -> (res: Result<Option<i32>, BuildError>)
    ensures
        match res {
            Ok(t) => tag_of(attrs@) == Ok::<Option<i32>, BuildErrorView>(t),
            Err(e) => tag_of(attrs@) == Err::<Option<i32>, BuildErrorView>(e@),
        },
{
    let mut i: usize = 0;
    assert(attrs@.subrange(0, attrs@.len() as int) =~= attrs@);
    while i < attrs.len()
        invariant
            i <= attrs.len(),
            tag_of(attrs@) == tag_of(attrs@.subrange(i as int, attrs@.len() as int)),
        decreases attrs.len() - i,
    {
        let ghost rest = attrs@.subrange(i as int, attrs@.len() as int);
        assert(rest.subrange(1, rest.len() as int) =~= attrs@.subrange(i + 1, attrs@.len() as int));
        match &attrs[i] {
            Attribute::NotTag => {},
            Attribute::TagWithoutList => {
                return Err(BuildError::TagWithoutList);
            },
            Attribute::Tag(TagArg::Int(v)) => {
                return match v {
                    Some(t) => Ok(Some(*t)),
                    None => Err(BuildError::TagOutOfRange),
                };
            },
            Attribute::Tag(TagArg::Ident(w)) => {
                return match tag_for_word(w) {
                    Some(t) => Ok(Some(t)),
                    None => Err(BuildError::UnknownLifecycle(w.clone())),
                };
            },
            Attribute::Tag(TagArg::Other) => {
                return Err(BuildError::BadTagArgument);
            },
        }
        i = i + 1;
    }
    proof {
        assert(attrs@.subrange(i as int, attrs@.len() as int).len() == 0);
    }
    Ok(None)
}

/// The call type of a method from its return type: 0 (no answer awaited)
/// without a return type or for `()`, 1 (only success or failure awaited) for
/// `Result<()>` and `Result<(), E>`, 2 (a value awaited) for `Result<T>` and
/// `Result<T, E>` (the first type argument decides); for any other return
/// type, the error that names the method `name` and its tag. The first
/// segment named `Result` decides.
pub open spec fn call_type_result(output: ReturnShape, tag: i32, name: Seq<char>) -> Result<u8, BuildErrorView> {
    match output {
        ReturnShape::Nothing => Ok(0u8),
        ReturnShape::Unit => Ok(0u8),
        ReturnShape::NotPath => Err(BuildErrorView::NonPathReturn { tag, name }),
        ReturnShape::Path(segs) => call_type_of_segments(segs@, tag, name),
    }
}

pub open spec fn call_type_of_segments(segs: Seq<Segment>, tag: i32, name: Seq<char>) -> Result<u8, BuildErrorView>
    decreases segs.len(),
{
    if segs.len() == 0 {
        Err(BuildErrorView::NoResult { tag, name })
    } else if !segs[0].is_result {
        call_type_of_segments(segs.subrange(1, segs.len() as int), tag, name)
    } else {
        match segs[0].args {
            SegmentArgs::Angle { count, first_is_unit } => if count >= 1 {
                Ok(if first_is_unit { 1u8 } else { 2u8 })
            } else {
                Err(BuildErrorView::ResultArity { tag, name })
            },
            _ => Err(BuildErrorView::ResultNotGeneric { tag, name }),
        }
    }
}

/// The call type of a method (see `call_type_result`); where the return type
/// allows none, an error that names the method and its tag.
pub fn get_function_tt(tag_id: i32, func_name: &String, output: &ReturnShape) -> (res: Result<u8, BuildError>)
    ensures
        match res {
            Ok(tt) => call_type_result(*output, tag_id, func_name@) == Ok::<u8, BuildErrorView>(tt),
            Err(e) => call_type_result(*output, tag_id, func_name@) == Err::<u8, BuildErrorView>(e@),
        },
{
    match output {
        ReturnShape::Nothing => Ok(0),
        ReturnShape::Unit => Ok(0),
        ReturnShape::NotPath => Err(BuildError::NonPathReturn { tag: tag_id, name: func_name.clone() }),
        ReturnShape::Path(segs) => {
            let ghost name = func_name@;
            let mut i: usize = 0;
            assert(segs@.subrange(0, segs@.len() as int) =~= segs@);
            while i < segs.len()
                invariant
                    i <= segs.len(),
                    name == func_name@,
                    call_type_result(*output, tag_id, name) == call_type_of_segments(segs@, tag_id, name),
                    call_type_of_segments(segs@, tag_id, name) == call_type_of_segments(
                        segs@.subrange(i as int, segs@.len() as int),
                        tag_id,
                        name,
                    ),
                decreases segs.len() - i,
            {
                let ghost rest = segs@.subrange(i as int, segs@.len() as int);
                assert(rest.subrange(1, rest.len() as int) =~= segs@.subrange(i + 1, segs@.len() as int));
                assert(rest[0] == segs@[i as int]);
                if segs[i].is_result {
                    return match &segs[i].args {
                        SegmentArgs::Angle { count, first_is_unit } => {
                            if *count >= 1 {
                                Ok(if *first_is_unit { 1u8 } else { 2u8 })
                            } else {
                                Err(BuildError::ResultArity { tag: tag_id, name: func_name.clone() })
                            }
                        },
                        _ => Err(BuildError::ResultNotGeneric { tag: tag_id, name: func_name.clone() }),
                    };
                }
                i = i + 1;
            }
            proof {
                assert(segs@.subrange(i as int, segs@.len() as int).len() == 0);
            }
            Err(BuildError::NoResult { tag: tag_id, name: func_name.clone() })
        },
    }
}

/// The text of each string.
pub open spec fn texts(v: Seq<String>) -> Seq<Seq<char>> {
    v.map_values(|s: String| s@)
}

/// Whether every typed parameter has a plain identifier for a name.
pub open spec fn params_plain(params: Seq<Param>) -> bool {
    forall|i: int| 0 <= i < params.len() ==> (#[trigger] params[i] matches Param::Typed { ty: _, name } ==> name is Some)
}

/// The types of the typed parameters, in order.
pub open spec fn param_types(params: Seq<Param>) -> Seq<Seq<char>>
    decreases params.len(),
{
    if params.len() == 0 {
        Seq::empty()
    } else {
        param_types(params.drop_last()) + match params.last() {
            Param::Receiver => Seq::<Seq<char>>::empty(),
            Param::Typed { ty, name: _ } => seq![ty@],
        }
    }
}

/// The names of the typed parameters, in order.
pub open spec fn param_names(params: Seq<Param>) -> Seq<Seq<char>>
    decreases params.len(),
{
    if params.len() == 0 {
        Seq::empty()
    } else {
        param_names(params.drop_last()) + match params.last() {
            Param::Receiver => Seq::<Seq<char>>::empty(),
            Param::Typed { ty: _, name } => match name {
                Some(n) => seq![n@],
                None => Seq::<Seq<char>>::empty(),
            },
        }
    }
}

/// What a method contributes: `Ok(None)` where it has no tag,
/// `Ok(Some((tag, tt)))` for a remote method, and the error where it is
/// rejected: its tag cannot be read, or it is tagged and not `async`, has a
/// parameter that is not a plain identifier, or a return type without a call
/// type (checked in this order).
pub open spec fn method_outcome(m: MethodSig) -> Result<Option<(i32, u8)>, BuildErrorView> {
    match tag_of(m.attrs@) {
        Err(e) => Err(e),
        Ok(None) => Ok(None),
        Ok(Some(t)) => if !m.is_async {
            Err(BuildErrorView::NotAsync { name: m.name@, tag: t })
        } else if !params_plain(m.params@) {
            Err(BuildErrorView::ParamNotIdent { name: m.name@ })
        } else {
            match call_type_result(m.output, t, m.name@) {
                Ok(tt) => Ok(Some((t, tt))),
                Err(e) => Err(e),
            }
        },
    }
}

/// The abstract content of a `FuncInfo`.
pub open spec fn info_view(f: FuncInfo) -> (i32, u8, Seq<char>, Seq<Seq<char>>, Seq<Seq<char>>) {
    (f.tag, f.tt, f.func_name@, texts(f.args_type@), texts(f.input_names@))
}

/// The remote methods of a trait, in order, or the error of the first method
/// that is rejected.
pub open spec fn funcs_of(items: Seq<TraitItem>) -> Result<
    Seq<(i32, u8, Seq<char>, Seq<Seq<char>>, Seq<Seq<char>>)>,
    BuildErrorView,
>
    decreases items.len(),
{
    if items.len() == 0 {
        Ok(Seq::empty())
    } else {
        match funcs_of(items.drop_last()) {
            Err(e) => Err(e),
            Ok(fs) => match items.last() {
                TraitItem::NotMethod => Ok(fs),
                TraitItem::Method(m) => match method_outcome(m) {
                    Err(e) => Err(e),
                    Ok(None) => Ok(fs),
                    Ok(Some((t, tt))) => Ok(
                        fs.push((t, tt, m.name@, param_types(m.params@), param_names(m.params@))),
                    ),
                },
            },
        }
    }
}

/// The types and names of the typed parameters; where one of them is not a
/// plain identifier, the error that names the method.
pub fn collect_params(params: &Vec<Param>, func_name: &String) -> (res: Result<(Vec<String>, Vec<String>), BuildError>)
    ensures
        res is Ok <==> params_plain(params@),
        res matches Ok((types, names)) ==> texts(types@) == param_types(params@) && texts(names@)
            == param_names(params@),
        res matches Err(e) ==> e@ == (BuildErrorView::ParamNotIdent { name: func_name@ }),
{
    let mut types: Vec<String> = Vec::new();
    let mut names: Vec<String> = Vec::new();
    let mut i: usize = 0;
    while i < params.len()
        invariant
            i <= params.len(),
            params_plain(params@.take(i as int)),
            texts(types@) == param_types(params@.take(i as int)),
            texts(names@) == param_names(params@.take(i as int)),
        decreases params.len() - i,
    {
        let ghost pre = params@.take(i as int);
        let ghost next = params@.take(i + 1);
        assert(next.drop_last() =~= pre);
        assert(next.last() == params@[i as int]);
        match &params[i] {
            Param::Receiver => {
                assert(texts(types@) =~= param_types(next));
                assert(texts(names@) =~= param_names(next));
            },
            Param::Typed { ty, name } => {
                match name {
                    Some(n) => {
                        types.push(ty.clone());
                        names.push(n.clone());
                        assert(texts(types@) =~= param_types(next));
                        assert(texts(names@) =~= param_names(next));
                    },
                    None => {
                        assert(!params_plain(params@)) by {
                            assert(params@[i as int] matches Param::Typed { ty: _, name } && name is None);
                        }
                        return Err(BuildError::ParamNotIdent { name: func_name.clone() });
                    },
                }
            },
        }
        assert forall|j: int| 0 <= j < next.len() implies (#[trigger] next[j] matches Param::Typed {
            ty: _,
            name,
        } ==> name is Some) by {
            if j < i {
                assert(next[j] == pre[j]);
            }
        }
        i = i + 1;
    }
    assert(params@.take(params.len() as int) =~= params@);
    Ok((types, names))
}

/// The remote methods of a trait, in order: the methods with a tag, each with
/// its tag, call type, name, parameter types and parameter names. Methods
/// without a tag are passed over. A tagged method that is not `async`, has a
/// parameter that is not a plain identifier, or has a return type that allows
/// no call type rejects the whole trait, as does a tag that cannot be read;
/// the error is that of the first method rejected.
pub fn get_funcs_info(items: &Vec<TraitItem>) -> (res: Result<Vec<FuncInfo>, BuildError>)
    ensures
        match res {
            Ok(fs) => funcs_of(items@) == Ok::<_, BuildErrorView>(fs@.map_values(|f: FuncInfo| info_view(f))),
            Err(e) => funcs_of(items@) == Err::<Seq<(i32, u8, Seq<char>, Seq<Seq<char>>, Seq<Seq<char>>)>, BuildErrorView>(e@),
        },
{
    let mut funcs: Vec<FuncInfo> = Vec::new();
    let mut i: usize = 0;
    assert(items@.take(0) =~= Seq::<TraitItem>::empty());
    assert(funcs@.map_values(|f: FuncInfo| info_view(f)) =~= Seq::empty());
    while i < items.len()
        invariant
            i <= items.len(),
            funcs_of(items@.take(i as int)) == Ok::<_, BuildErrorView>(funcs@.map_values(|f: FuncInfo| info_view(f))),
        decreases items.len() - i,
    {
        let ghost pre = items@.take(i as int);
        let ghost next = items@.take(i + 1);
        let ghost before = funcs@.map_values(|f: FuncInfo| info_view(f));
        assert(next.drop_last() =~= pre);
        assert(next.last() == items@[i as int]);
        match &items[i] {
            TraitItem::NotMethod => {},
            TraitItem::Method(m) => {
                let tag = match have_tag(&m.attrs) {
                    Ok(t) => t,
                    Err(e) => {
                        proof {
                            lemma_funcs_of_err_stays(items@, (i + 1) as nat, items@.len(), e@);
                            assert(items@.take(items@.len() as int) =~= items@);
                        }
                        return Err(e);
                    },
                };
                match tag {
                    None => {},
                    Some(tag_id) => {
                        if !m.is_async {
                            let e = BuildError::NotAsync { name: m.name.clone(), tag: tag_id };
                            proof {
                                lemma_funcs_of_err_stays(items@, (i + 1) as nat, items@.len(), e@);
                                assert(items@.take(items@.len() as int) =~= items@);
                            }
                            return Err(e);
                        }
                        let (types, names) = match collect_params(&m.params, &m.name) {
                            Ok(p) => p,
                            Err(e) => {
                                proof {
                                    lemma_funcs_of_err_stays(items@, (i + 1) as nat, items@.len(), e@);
                                    assert(items@.take(items@.len() as int) =~= items@);
                                }
                                return Err(e);
                            },
                        };
                        let tt = match get_function_tt(tag_id, &m.name, &m.output) {
                            Ok(tt) => tt,
                            Err(e) => {
                                proof {
                                    lemma_funcs_of_err_stays(items@, (i + 1) as nat, items@.len(), e@);
                                    assert(items@.take(items@.len() as int) =~= items@);
                                }
                                return Err(e);
                            },
                        };
                        funcs.push(
                            FuncInfo {
                                tag: tag_id,
                                tt,
                                func_name: m.name.clone(),
                                args_type: types,
                                input_names: names,
                            },
                        );
                        assert(funcs@.map_values(|f: FuncInfo| info_view(f)) =~= before.push(
                            info_view(funcs@.last()),
                        ));
                    },
                }
            },
        }
        i = i + 1;
    }
    assert(items@.take(items.len() as int) =~= items@);
    Ok(funcs)
}

/// Once a prefix of the items is rejected with an error, so is every longer
/// prefix, with the same error.
proof fn lemma_funcs_of_err_stays(items: Seq<TraitItem>, i: nat, n: nat, e: BuildErrorView)
    requires
        i <= n <= items.len(),
        funcs_of(items.take(i as int)) == Err::<Seq<(i32, u8, Seq<char>, Seq<Seq<char>>, Seq<Seq<char>>)>, BuildErrorView>(e),
    ensures
        funcs_of(items.take(n as int)) == Err::<Seq<(i32, u8, Seq<char>, Seq<Seq<char>>, Seq<Seq<char>>)>, BuildErrorView>(e),
    decreases n - i,
{
    if i < n {
        lemma_funcs_of_err_stays(items, i, (n - 1) as nat, e);
        assert(items.take(n as int).drop_last() =~= items.take(n - 1));
    }
}

/// Where an incoming call goes.
pub enum Route {
    /// To the remote method at this position.
    Method(usize),
    /// To none: a lifecycle command without a method of its own succeeds.
    Lifecycle,
    /// To none: the command is unknown, and the call fails.
    NotFound,
}

/// Whether a command tag is one of the lifecycle tags.
pub open spec fn is_lifecycle(cmd_tag: i32) -> bool {
    cmd_tag == CONNECT || cmd_tag == DISCONNECT || cmd_tag == CLOSED
}

/// The route of a call with this command tag: the first remote method with
/// that tag; else success for a lifecycle tag; else not found.
pub fn find_route(funcs: &Vec<FuncInfo>, cmd_tag: i32) -> (r: Route)
    ensures
        r matches Route::Method(i) ==> i < funcs@.len() && funcs@[i as int].tag == cmd_tag && forall|
            j: int,
        | 0 <= j < i ==> #[trigger] funcs@[j].tag != cmd_tag,
        r !is Method ==> forall|j: int| 0 <= j < funcs@.len() ==> #[trigger] funcs@[j].tag != cmd_tag,
        r is Lifecycle <==> (r !is Method && is_lifecycle(cmd_tag)),
        r is NotFound <==> (r !is Method && !is_lifecycle(cmd_tag)),
{
    let mut i: usize = 0;
    while i < funcs.len()
        invariant
            i <= funcs.len(),
            forall|j: int| 0 <= j < i ==> #[trigger] funcs@[j].tag != cmd_tag,
        decreases funcs.len() - i,
    {
        if funcs[i].tag == cmd_tag {
            return Route::Method(i);
        }
        i = i + 1;
    }
    if cmd_tag == CONNECT || cmd_tag == DISCONNECT || cmd_tag == CLOSED {
        Route::Lifecycle
    } else {
        Route::NotFound
    }
}

/// Why a routed call is refused before its method runs.
pub enum DispatchError {
    /// The call type of the call is not that of the method.
    WrongCallType { tag: i32, expected: u8, got: u8 },
    /// The number of arguments is not that of the method.
    WrongArgCount { tag: i32, expected: usize, got: usize },
}

/// Whether a routed call may run the method it was routed to: the method has
/// command tag `tag`, call type `func_tt` and `func_args` parameters. The
/// call's type `tt` must be the method's, and then its argument count
/// `args_len` the method's parameter count.
pub fn check_call(tag: i32, func_tt: u8, func_args: usize, tt: u8, args_len: u32) -> (res: Result<(), DispatchError>)
    ensures
        res is Ok <==> tt == func_tt && args_len == func_args,
        tt != func_tt ==> res == Err::<(), DispatchError>(
            DispatchError::WrongCallType { tag, expected: func_tt, got: tt },
        ),
        tt == func_tt && args_len != func_args ==> res == Err::<(), DispatchError>(
            DispatchError::WrongArgCount { tag, expected: func_args, got: args_len as usize },
        ),
{
    if tt != func_tt {
        return Err(DispatchError::WrongCallType { tag, expected: func_tt, got: tt });
    }
    let args_len = args_len as usize;
    if args_len != func_args {
        return Err(DispatchError::WrongArgCount { tag, expected: func_args, got: args_len });
    }
    Ok(())
}

/// How a remote method is called, by its call type.
#[derive(PartialEq, Eq, Structural)]
pub enum CallForm {
    /// Call type 0: the call goes out and no answer is awaited; failures to
    /// send are only noted.
    FireAndForget,
    /// Call type 1: the call waits for the remote side's success or failure.
    Confirm,
    /// Call type 2: the call waits for the answer and reads the value from it.
    Value,
}

/// The form of the call for a call type.
pub fn call_form(tt: u8) -> (f: CallForm)
    requires
        tt <= 2,
    ensures
        tt == 0 ==> f == CallForm::FireAndForget,
        tt == 1 ==> f == CallForm::Confirm,
        tt == 2 ==> f == CallForm::Value,
{
    if tt == 0 {
        CallForm::FireAndForget
    } else if tt == 1 {
        CallForm::Confirm
    } else {
        CallForm::Value
    }
}

/// Law: every remote method that an interface description yields has a call
/// type of 0, 1 or 2, so each can be called in one of the three forms.
pub proof fn law_call_types_in_range(output: ReturnShape, tag: i32, name: Seq<char>)
    ensures
        call_type_result(output, tag, name) matches Ok(tt) ==> tt <= 2,
{
    if let ReturnShape::Path(segs) = output {
        lemma_call_type_of_segments_in_range(segs@, tag, name);
    }
}

proof fn lemma_call_type_of_segments_in_range(segs: Seq<Segment>, tag: i32, name: Seq<char>)
    ensures
        call_type_of_segments(segs, tag, name) matches Ok(tt) ==> tt <= 2,
    decreases segs.len(),
{
    if segs.len() > 0 && !segs[0].is_result {
        lemma_call_type_of_segments_in_range(segs.subrange(1, segs.len() as int), tag, name);
    }
}

/// Law: the call type of a path return type is decided by the first segment
/// named `Result`, whatever segments come before it (as in `anyhow::Result<T>`):
/// with at least one type argument, 1 where the first is `()` and 2 otherwise;
/// with none, or without angle brackets, an error naming the method; and a
/// path without a `Result` segment is an error too.
pub proof fn law_first_result_segment_decides(segs: Vec<Segment>, k: int, tag: i32, name: Seq<char>)
    requires
        0 <= k <= segs@.len(),
        forall|j: int| 0 <= j < k ==> !(#[trigger] segs@[j]).is_result,
    ensures
        k == segs@.len() ==> call_type_result(ReturnShape::Path(segs), tag, name) == Err::<u8, BuildErrorView>(
            BuildErrorView::NoResult { tag, name },
        ),
        k < segs@.len() && segs@[k].is_result ==> call_type_result(ReturnShape::Path(segs), tag, name) == match segs@[k].args {
            SegmentArgs::Angle { count, first_is_unit } => if count >= 1 {
                Ok::<u8, BuildErrorView>(if first_is_unit { 1u8 } else { 2u8 })
            } else {
                Err(BuildErrorView::ResultArity { tag, name })
            },
            _ => Err(BuildErrorView::ResultNotGeneric { tag, name }),
        },
{
    lemma_skip_plain_segments(segs@, k, tag, name);
    if k == segs@.len() {
        assert(segs@.subrange(k, segs@.len() as int).len() == 0);
    } else {
        assert(segs@.subrange(k, segs@.len() as int)[0] == segs@[k]);
    }
}

/// Segments before the first one named `Result` do not change the call type.
proof fn lemma_skip_plain_segments(segs: Seq<Segment>, k: int, tag: i32, name: Seq<char>)
    requires
        0 <= k <= segs.len(),
        forall|j: int| 0 <= j < k ==> !(#[trigger] segs[j]).is_result,
    ensures
        call_type_of_segments(segs, tag, name) == call_type_of_segments(
            segs.subrange(k, segs.len() as int),
            tag,
            name,
        ),
    decreases k,
{
    if k == 0 {
        assert(segs.subrange(0, segs.len() as int) =~= segs);
    } else {
        let rest = segs.subrange(1, segs.len() as int);
        assert(!segs[0].is_result);
        assert forall|j: int| 0 <= j < k - 1 implies !(#[trigger] rest[j]).is_result by {
            assert(rest[j] == segs[j + 1]);
        }
        lemma_skip_plain_segments(rest, k - 1, tag, name);
        assert(rest.subrange(k - 1, rest.len() as int) =~= segs.subrange(k, segs.len() as int));
    }
}

/// A method whose attributes hold no tag attribute has no tag.
proof fn lemma_no_tag_attribute(attrs: Seq<Attribute>)
    requires
        forall|i: int| 0 <= i < attrs.len() ==> (#[trigger] attrs[i]) is NotTag,
    ensures
        tag_of(attrs) == Ok::<Option<i32>, BuildErrorView>(None),
    decreases attrs.len(),
{
    if attrs.len() > 0 {
        let rest = attrs.subrange(1, attrs.len() as int);
        assert forall|i: int| 0 <= i < rest.len() implies (#[trigger] rest[i]) is NotTag by {
            assert(rest[i] == attrs[i + 1]);
        }
        lemma_no_tag_attribute(rest);
        assert(attrs[0] is NotTag);
    }
}

/// Law: a method without a tag attribute is no remote method: it is passed
/// over, whether or not it is `async` and whatever its parameters and return
/// type, so it neither adds to the remote methods nor rejects the trait.
pub proof fn law_untagged_methods_pass_over(items: Seq<TraitItem>, m: MethodSig)
    requires
        forall|i: int| 0 <= i < m.attrs@.len() ==> (#[trigger] m.attrs@[i]) is NotTag,
    ensures
        funcs_of(items.push(TraitItem::Method(m))) == funcs_of(items),
{
    lemma_no_tag_attribute(m.attrs@);
    assert(items.push(TraitItem::Method(m)).drop_last() =~= items);
}

} // verus!
