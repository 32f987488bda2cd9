//! The arguments of the `service`, `endpoint` and `stream` attributes.

use vstd::prelude::*;

use crate::text::same_text;

verus! {

broadcast use vstd::string::group_string_axioms;

/// One `key = value` item of an attribute's arguments, as the macro reads it.
/// The value is offered in each form the attribute may ask for; a form is
/// `None` when the value does not parse as it, or when there is no value.
pub struct MetaArg {
    /// The item's path, as written.
    pub key: String,
    /// Whether the path is followed by `=` and a value.
    pub has_value: bool,
    /// The value, when it is a string literal.
    pub string_value: Option<String>,
    /// The value's text, when it is a path.
    pub path_value: Option<String>,
    /// The value's text, when it is a type.
    pub type_value: Option<String>,
}

/// The arguments of the `service` attribute.
pub struct ServiceArgs {
    /// The service name template, such as `weather.{location}.{id}`.
    pub name: String,
    /// The service version.
    pub version: String,
}

/// Why the `service` attribute's arguments were refused.
#[derive(Debug)]
pub enum AttrError {
    /// An item other than `name` or `version`; its key.
    Unsupported(String),
    /// `name` or `version` not followed by `=`; its key.
    ExpectedEquals(String),
    /// `name` or `version` without a string literal value; its key.
    ExpectedString(String),
    /// No `name` item.
    MissingName,
    /// No `version` item.
    MissingVersion,
}

/// The text an error of the `service` attribute is reported with.
pub open spec fn attr_error_text(e: AttrError) -> Seq<char> {
    match e {
        AttrError::Unsupported(_) => "unsupported service attribute"@,
        AttrError::ExpectedEquals(_) => "expected `=`"@,
        AttrError::ExpectedString(_) => "expected string literal"@,
        AttrError::MissingName => "service attribute requires 'name' parameter"@,
        AttrError::MissingVersion => "service attribute requires 'version' parameter"@,
    }
}

impl AttrError {
    /// The text the error is reported with.
    pub fn to_string(&self) -> (s: String)
        ensures
            s@ == attr_error_text(*self),
    {
        match self {
            AttrError::Unsupported(_) => "unsupported service attribute".to_string(),
            AttrError::ExpectedEquals(_) => "expected `=`".to_string(),
            AttrError::ExpectedString(_) => "expected string literal".to_string(),
            AttrError::MissingName => "service attribute requires 'name' parameter".to_string(),
            AttrError::MissingVersion => "service attribute requires 'version' parameter".to_string(),
        }
    }

    /// Whether the macro stops with a panic (a required item is missing)
    /// rather than a compile error at the attribute (an item was refused).
    pub fn is_missing_item(&self) -> (r: bool)
        ensures
            r == (*self is MissingName || *self is MissingVersion),
    {
        match self {
            AttrError::MissingName | AttrError::MissingVersion => true,
            _ => false,
        }
    }
}

/// The view of an optional string.
pub open spec fn opt_view(o: Option<String>) -> Option<Seq<char>> {
    match o {
        Some(s) => Some(s@),
        None => None,
    }
}

/// Reads the `service` attribute's items in order, keeping the last `name`
/// and `version` seen; the first item that is refused ends the reading.
pub open spec fn service_args_scan(
    args: Seq<MetaArg>,
    name: Option<Seq<char>>,
    version: Option<Seq<char>>,
) -> Result<(Option<Seq<char>>, Option<Seq<char>>), AttrError>
    decreases args.len(),
{
    if args.len() == 0 {
        Ok((name, version))
    } else {
        let a = args[0];
        if (a.key@ == "name"@ || a.key@ == "version"@) && !a.has_value {
            Err(AttrError::ExpectedEquals(a.key))
        } else if a.key@ == "name"@ {
            match a.string_value {
                Some(v) => service_args_scan(args.drop_first(), Some(v@), version),
                None => Err(AttrError::ExpectedString(a.key)),
            }
        } else if a.key@ == "version"@ {
            match a.string_value {
                Some(v) => service_args_scan(args.drop_first(), name, Some(v@)),
                None => Err(AttrError::ExpectedString(a.key)),
            }
        } else {
            Err(AttrError::Unsupported(a.key))
        }
    }
}

/// The outcome of reading the `service` attribute: its name and version, or
/// the first refusal, or the missing name (checked first), or the missing
/// version.
pub open spec fn service_args_spec(args: Seq<MetaArg>) -> Result<(Seq<char>, Seq<char>), AttrError> {
    match service_args_scan(args, None, None) {
        Err(e) => Err(e),
        Ok((None, _)) => Err(AttrError::MissingName),
        Ok((Some(_), None)) => Err(AttrError::MissingVersion),
        Ok((Some(n), Some(v))) => Ok((n, v)),
    }
}

/// Whether an item's key is `key`.
pub open spec fn key_is(key: Seq<char>) -> spec_fn(MetaArg) -> bool {
    |a: MetaArg| a.key@ == key
}

/// The string value of the last item keyed `key`, or `default` when no item
/// has that key.
pub open spec fn last_value_of(args: Seq<MetaArg>, key: Seq<char>, default: Option<Seq<char>>) -> Option<
    Seq<char>,
> {
    let items = args.filter(key_is(key));
    if items.len() == 0 {
        default
    } else {
        Some(items.last().string_value->0@)
    }
}

/// An item the `service` attribute accepts: `name` or `version`, `=`, and a
/// string literal.
pub open spec fn is_service_item(a: MetaArg) -> bool {
    &&& (a.key@ == "name"@ || a.key@ == "version"@)
    &&& a.has_value
    &&& a.string_value is Some
}

/// Reading accepted `service` items does not depend on their order: each of
/// `name` and `version` ends up with the value of its last item, whatever
/// items of the other key stand before or after it, and the reading succeeds.
pub proof fn law_service_items_last_value_wins(
    args: Seq<MetaArg>,
    name: Option<Seq<char>>,
    version: Option<Seq<char>>,
)
    requires
        forall|i: int| 0 <= i < args.len() ==> is_service_item(#[trigger] args[i]),
    ensures
        service_args_scan(args, name, version) == Ok::<_, AttrError>(
            (last_value_of(args, "name"@, name), last_value_of(args, "version"@, version)),
        ),
    decreases args.len(),
{
    reveal_strlit("name");
    reveal_strlit("version");
    if args.len() == 0 {
        reveal(Seq::filter);
        assert(args.filter(key_is("name"@)) =~= args);
        assert(args.filter(key_is("version"@)) =~= args);
    } else {
        let a = args[0];
        let rest = args.drop_first();
        assert(seq![a] + rest =~= args);
        rest.lemma_filter_prepend(a, key_is("name"@));
        rest.lemma_filter_prepend(a, key_is("version"@));
        assert(forall|i: int| 0 <= i < rest.len() ==> is_service_item(#[trigger] rest[i])) by {
            assert forall|i: int| 0 <= i < rest.len() implies is_service_item(
                #[trigger] rest[i],
            ) by {
                assert(rest[i] == args[i + 1]);
            }
        }
        assert(is_service_item(args[0]));
        if a.key@ == "name"@ {
            let v = Some(a.string_value->0@);
            law_service_items_last_value_wins(rest, v, version);
            assert("name"@[0] != "version"@[0]);
            assert(a.key@ != "version"@);
            assert(last_value_of(args, "version"@, version) == last_value_of(
                rest,
                "version"@,
                version,
            ));
            let fr = rest.filter(key_is("name"@));
            assert(args.filter(key_is("name"@)) == seq![a] + fr);
            if fr.len() > 0 {
                assert((seq![a] + fr).last() == fr.last());
            }
        } else {
            let v = Some(a.string_value->0@);
            law_service_items_last_value_wins(rest, name, v);
            assert(last_value_of(args, "name"@, name) == last_value_of(rest, "name"@, name));
            let fr = rest.filter(key_is("version"@));
            assert(args.filter(key_is("version"@)) == seq![a] + fr);
            if fr.len() > 0 {
                assert((seq![a] + fr).last() == fr.last());
            }
        }
    }
}

/// The order of a `name` item and a `version` item does not matter: written
/// either way round, the attribute reads as that name and that version.
pub proof fn law_service_args_order_free(name_item: MetaArg, version_item: MetaArg)
    requires
        name_item.key@ == "name"@,
        version_item.key@ == "version"@,
        name_item.has_value && name_item.string_value is Some,
        version_item.has_value && version_item.string_value is Some,
    ensures
        service_args_spec(seq![name_item, version_item]) == Ok::<_, AttrError>(
            (name_item.string_value->0@, version_item.string_value->0@),
        ),
        service_args_spec(seq![version_item, name_item]) == Ok::<_, AttrError>(
            (name_item.string_value->0@, version_item.string_value->0@),
        ),
{
    reveal_strlit("name");
    reveal_strlit("version");
    assert("name"@[0] != "version"@[0]);
    let e = Seq::<MetaArg>::empty();
    let one = seq![name_item, version_item];
    let two = seq![version_item, name_item];
    law_service_items_last_value_wins(one, None, None);
    law_service_items_last_value_wins(two, None, None);
    assert(e.filter(key_is("name"@)) =~= e) by {
        reveal(Seq::filter);
    }
    assert(e.filter(key_is("version"@)) =~= e) by {
        reveal(Seq::filter);
    }
    assert(e.push(name_item) =~= seq![name_item]);
    assert(e.push(version_item) =~= seq![version_item]);
    assert(seq![name_item].push(version_item) =~= one);
    assert(seq![version_item].push(name_item) =~= two);
    e.lemma_filter_push(name_item, key_is("name"@));
    e.lemma_filter_push(name_item, key_is("version"@));
    e.lemma_filter_push(version_item, key_is("name"@));
    e.lemma_filter_push(version_item, key_is("version"@));
    seq![name_item].lemma_filter_push(version_item, key_is("name"@));
    seq![name_item].lemma_filter_push(version_item, key_is("version"@));
    seq![version_item].lemma_filter_push(name_item, key_is("name"@));
    seq![version_item].lemma_filter_push(name_item, key_is("version"@));
    assert(one.filter(key_is("name"@)) =~= seq![name_item]);
    assert(one.filter(key_is("version"@)) =~= seq![version_item]);
    assert(two.filter(key_is("name"@)) =~= seq![name_item]);
    assert(two.filter(key_is("version"@)) =~= seq![version_item]);
}

/// The view of the outcome of `parse_service_args`.
pub open spec fn service_args_result_view(r: Result<ServiceArgs, AttrError>) -> Result<
    (Seq<char>, Seq<char>),
    AttrError,
> {
    match r {
        Ok(a) => Ok((a.name@, a.version@)),
        Err(e) => Err(e),
    }
}

/// Reads the arguments of the `service` attribute: `name` and `version`, each
/// `=` and a string literal, and both required; any other item is refused.
pub fn parse_service_args(args: &Vec<MetaArg>) -> (r: Result<ServiceArgs, AttrError>)
    ensures
        service_args_result_view(r) == service_args_spec(args@),
        (forall|i: int| 0 <= i < args@.len() ==> is_service_item(#[trigger] args@[i])) ==> match (
            last_value_of(args@, "name"@, None),
            last_value_of(args@, "version"@, None),
        ) {
            (Some(n), Some(v)) => r matches Ok(a) && a.name@ == n && a.version@ == v,
            (None, _) => r matches Err(AttrError::MissingName),
            (Some(_), None) => r matches Err(AttrError::MissingVersion),
        },
{
    proof {
        if forall|i: int| 0 <= i < args@.len() ==> is_service_item(#[trigger] args@[i]) {
            law_service_items_last_value_wins(args@, None, None);
        }
    }
    let mut name: Option<String> = None;
    let mut version: Option<String> = None;
    let mut i: usize = 0;
    assert(args@.skip(0) =~= args@);
    while i < args.len()
        invariant
            i <= args.len(),
            service_args_scan(args@, None, None) == service_args_scan(
                args@.skip(i as int),
                opt_view(name),
                opt_view(version),
            ),
        decreases args.len() - i,
    {
        let a = &args[i];
        proof {
            assert(args@.skip(i as int).drop_first() =~= args@.skip(i + 1));
            assert(args@.skip(i as int)[0] == args@[i as int]);
        }
        let is_name = same_text(&a.key, "name");
        let is_version = same_text(&a.key, "version");
        if (is_name || is_version) && !a.has_value {
            return Err(AttrError::ExpectedEquals(a.key.clone()));
        }
        if is_name {
            match &a.string_value {
                Some(v) => {
                    name = Some(v.clone());
                },
                None => {
                    return Err(AttrError::ExpectedString(a.key.clone()));
                },
            }
        } else if is_version {
            match &a.string_value {
                Some(v) => {
                    version = Some(v.clone());
                },
                None => {
                    return Err(AttrError::ExpectedString(a.key.clone()));
                },
            }
        } else {
            return Err(AttrError::Unsupported(a.key.clone()));
        }
        i = i + 1;
    }
    assert(args@.skip(i as int) =~= Seq::<MetaArg>::empty());
    match name {
        None => Err(AttrError::MissingName),
        Some(n) => match version {
            None => Err(AttrError::MissingVersion),
            Some(v) => Ok(ServiceArgs { name: n, version: v }),
        },
    }
}

/// Reads an `endpoint` attribute's items in order: each `subject` with a
/// string literal value sets the subject; the first other item ends the
/// reading, keeping what was read before it.
pub open spec fn endpoint_attr_scan(args: Seq<MetaArg>, subject: Option<Seq<char>>) -> Option<
    Seq<char>,
>
    decreases args.len(),
{
    if args.len() == 0 {
        subject
    } else if args[0].key@ == "subject"@ && args[0].string_value is Some {
        endpoint_attr_scan(args.drop_first(), Some(args[0].string_value->0@))
    } else {
        subject
    }
}

/// Applies one `endpoint` attribute to the subject read so far.
pub fn apply_endpoint_attr(subject: Option<String>, args: &Vec<MetaArg>) -> (s: Option<String>)
    ensures
        opt_view(s) == endpoint_attr_scan(args@, opt_view(subject)),
{
    let mut cur = subject;
    let mut i: usize = 0;
    assert(args@.skip(0) =~= args@);
    while i < args.len()
        invariant
            i <= args.len(),
            endpoint_attr_scan(args@, opt_view(subject)) == endpoint_attr_scan(
                args@.skip(i as int),
                opt_view(cur),
            ),
        decreases args.len() - i,
    {
        let a = &args[i];
        proof {
            assert(args@.skip(i as int).drop_first() =~= args@.skip(i + 1));
            assert(args@.skip(i as int)[0] == args@[i as int]);
        }
        if same_text(&a.key, "subject") && a.string_value.is_some() {
            match &a.string_value {
                Some(v) => {
                    cur = Some(v.clone());
                },
                None => {},
            }
        } else {
            assert(endpoint_attr_scan(args@.skip(i as int), opt_view(cur)) == opt_view(cur));
            return cur;
        }
        i = i + 1;
    }
    assert(args@.skip(i as int) =~= Seq::<MetaArg>::empty());
    cur
}

/// What the `stream` attributes of a method have set so far.
pub struct StreamAttrs {
    /// The stream name, a string literal.
    pub name: Option<String>,
    /// The stream subject, a string literal.
    pub subject: Option<String>,
    /// The storage type, a path.
    pub storage: Option<String>,
    /// The message type.
    pub message: Option<String>,
}

/// The mathematical form of `StreamAttrs`.
pub struct StreamAttrsView {
    pub name: Option<Seq<char>>,
    pub subject: Option<Seq<char>>,
    pub storage: Option<Seq<char>>,
    pub message: Option<Seq<char>>,
}

impl View for StreamAttrs {
    type V = StreamAttrsView;

    open spec fn view(&self) -> StreamAttrsView {
        StreamAttrsView {
            name: opt_view(self.name),
            subject: opt_view(self.subject),
            storage: opt_view(self.storage),
            message: opt_view(self.message),
        }
    }
}

/// Reads a `stream` attribute's items in order: `name` and `subject` take a
/// string literal, `storage` a path, `message` a type; the first item that is
/// none of these, or whose value has the wrong form, ends the reading.
pub open spec fn stream_attr_scan(args: Seq<MetaArg>, cur: StreamAttrsView) -> StreamAttrsView
    decreases args.len(),
{
    if args.len() == 0 {
        cur
    } else {
        let a = args[0];
        if a.key@ == "name"@ && a.string_value is Some {
            stream_attr_scan(
                args.drop_first(),
                StreamAttrsView { name: Some(a.string_value->0@), ..cur },
            )
        } else if a.key@ == "subject"@ && a.string_value is Some {
            stream_attr_scan(
                args.drop_first(),
                StreamAttrsView { subject: Some(a.string_value->0@), ..cur },
            )
        } else if a.key@ == "storage"@ && a.path_value is Some {
            stream_attr_scan(
                args.drop_first(),
                StreamAttrsView { storage: Some(a.path_value->0@), ..cur },
            )
        } else if a.key@ == "message"@ && a.type_value is Some {
            stream_attr_scan(
                args.drop_first(),
                StreamAttrsView { message: Some(a.type_value->0@), ..cur },
            )
        } else {
            cur
        }
    }
}

pub(crate) fn clone_opt(o: &Option<String>) -> (r: Option<String>)
    ensures
        opt_view(r) == opt_view(*o),
{
    match o {
        Some(s) => Some(s.clone()),
        None => None,
    }
}

/// Applies one `stream` attribute to what was read so far.
pub fn apply_stream_attr(attrs: StreamAttrs, args: &Vec<MetaArg>) -> (r: StreamAttrs)
    ensures
        r@ == stream_attr_scan(args@, attrs@),
{
    let mut cur = attrs;
    let mut i: usize = 0;
    assert(args@.skip(0) =~= args@);
    while i < args.len()
        invariant
            i <= args.len(),
            stream_attr_scan(args@, attrs@) == stream_attr_scan(args@.skip(i as int), cur@),
        decreases args.len() - i,
    {
        let a = &args[i];
        proof {
            assert(args@.skip(i as int).drop_first() =~= args@.skip(i + 1));
            assert(args@.skip(i as int)[0] == args@[i as int]);
        }
        if same_text(&a.key, "name") && a.string_value.is_some() {
            cur.name = clone_opt(&a.string_value);
        } else if same_text(&a.key, "subject") && a.string_value.is_some() {
            cur.subject = clone_opt(&a.string_value);
        } else if same_text(&a.key, "storage") && a.path_value.is_some() {
            cur.storage = clone_opt(&a.path_value);
        } else if same_text(&a.key, "message") && a.type_value.is_some() {
            cur.message = clone_opt(&a.type_value);
        } else {
            assert(stream_attr_scan(args@.skip(i as int), cur@) == cur@);
            return cur;
        }
        i = i + 1;
    }
    assert(args@.skip(i as int) =~= Seq::<MetaArg>::empty());
    cur
}

} // verus!
