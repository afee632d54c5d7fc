use vstd::prelude::*;

verus! {

/// The tokens carried by the browser redirect.
#[derive(Clone, Debug, PartialEq, Eq)]
pub struct AuthTokensQuery {
    pub access_token: String,
    pub refresh_token: Option<String>,
}

/// Mathematical model of [`AuthTokensQuery`].
pub struct TokensView {
    pub access_token: Seq<char>,
    pub refresh_token: Option<Seq<char>>,
}

impl TokensView {
    /// A refresh token, when there is one, is never empty: an empty value
    /// stands for "no refresh token".
    pub open spec fn wf(self) -> bool {
        match self.refresh_token {
            Some(r) => r.len() > 0,
            None => true,
        }
    }
}

pub open spec fn opt_string_view(o: Option<String>) -> Option<Seq<char>> {
    match o {
        Some(s) => Some(s@),
        None => None,
    }
}

impl View for AuthTokensQuery {
    type V = TokensView;

    open spec fn view(&self) -> TokensView {
        TokensView {
            access_token: self.access_token@,
            refresh_token: opt_string_view(self.refresh_token),
        }
    }
}

/// One named value as it arrives in a query or a JSON object.
#[derive(Clone, Debug, PartialEq, Eq)]
pub enum FieldValue {
    Null,
    Text(String),
    /// Anything that is neither null nor a string (a number, a list, ...).
    Other,
}

pub enum FieldView {
    Null,
    Text(Seq<char>),
    Other,
}

impl View for FieldValue {
    type V = FieldView;

    open spec fn view(&self) -> FieldView {
        match self {
            FieldValue::Null => FieldView::Null,
            FieldValue::Text(s) => FieldView::Text(s@),
            FieldValue::Other => FieldView::Other,
        }
    }
}

#[derive(Clone, Copy, Debug, PartialEq, Eq, Structural)]
pub enum DecodeError {
    /// The input is not a query string or a JSON object at all.
    Malformed,
    /// `access_token` or `refresh_token` is given more than once.
    DuplicateField,
    /// No `access_token` is given.
    MissingAccessToken,
    /// `access_token` is given, but not as a string.
    AccessTokenNotText,
    /// `refresh_token` is given, but neither as a string nor as null.
    RefreshTokenNotText,
}

pub type Entries = Seq<(Seq<char>, FieldView)>;

pub open spec fn entry_view(e: (String, FieldValue)) -> (Seq<char>, FieldView) {
    (e.0@, e.1@)
}

pub open spec fn field_entries(fields: Seq<(String, FieldValue)>) -> Entries {
    fields.map_values(|e: (String, FieldValue)| entry_view(e))
}

pub open spec fn access_name() -> Seq<char> {
    "access_token"@
}

pub open spec fn refresh_name() -> Seq<char> {
    "refresh_token"@
}

/// The two token names differ.
pub proof fn lemma_names_differ()
    ensures
        access_name() != refresh_name(),
{
    reveal_strlit("access_token");
    reveal_strlit("refresh_token");
    assert(access_name().len() != refresh_name().len());
}

/// How many entries carry the given name.
pub open spec fn occurrences(entries: Entries, name: Seq<char>) -> nat
    decreases entries.len(),
{
    if entries.len() == 0 {
        0
    } else {
        occurrences(entries.drop_last(), name) + if entries.last().0 == name {
            1nat
        } else {
            0nat
        }
    }
}

/// The value of the last entry with the given name, if any.
pub open spec fn value_of(entries: Entries, name: Seq<char>) -> Option<FieldView>
    decreases entries.len(),
{
    if entries.len() == 0 {
        None
    } else if entries.last().0 == name {
        Some(entries.last().1)
    } else {
        value_of(entries.drop_last(), name)
    }
}

/// The refresh token that a `refresh_token` value stands for: absent, null
/// and the empty string all mean "none".
pub open spec fn refresh_from(v: Option<FieldView>) -> Result<Option<Seq<char>>, DecodeError> {
    match v {
        None => Ok(None),
        Some(FieldView::Null) => Ok(None),
        Some(FieldView::Text(r)) => Ok(
            if r.len() == 0 {
                None
            } else {
                Some(r)
            },
        ),
        Some(FieldView::Other) => Err(DecodeError::RefreshTokenNotText),
    }
}

/// What a list of named values decodes to. Names other than the two token
/// names are ignored.
pub open spec fn decoded(entries: Entries) -> Result<TokensView, DecodeError> {
    if occurrences(entries, access_name()) > 1 || occurrences(entries, refresh_name()) > 1 {
        Err(DecodeError::DuplicateField)
    } else {
        match value_of(entries, access_name()) {
            None => Err(DecodeError::MissingAccessToken),
            Some(FieldView::Text(a)) => match refresh_from(value_of(entries, refresh_name())) {
                Ok(r) => Ok(TokensView { access_token: a, refresh_token: r }),
                Err(e) => Err(e),
            },
            Some(_) => Err(DecodeError::AccessTokenNotText),
        }
    }
}

pub open spec fn result_view(r: Result<AuthTokensQuery, DecodeError>) -> Result<TokensView, DecodeError> {
    match r {
        Ok(q) => Ok(q@),
        Err(e) => Err(e),
    }
}

/// The structured form of a payload: `access_token` as a string, then
/// `refresh_token` as a string or null.
pub open spec fn encoded(t: TokensView) -> Entries {
    seq![
        (access_name(), FieldView::Text(t.access_token)),
        (
            refresh_name(),
            match t.refresh_token {
                Some(r) => FieldView::Text(r),
                None => FieldView::Null,
            },
        ),
    ]
}

/// Decodes a list of named values into the tokens.
pub fn decode_fields(fields: &Vec<(String, FieldValue)>) -> (r: Result<AuthTokensQuery, DecodeError>)
    ensures
        result_view(r) == decoded(field_entries(fields@)),
{
    let access_key = "access_token".to_owned();
    let refresh_key = "refresh_token".to_owned();
    let ghost entries = field_entries(fields@);
    let mut access_at: Option<usize> = None;
    let mut refresh_at: Option<usize> = None;
    let mut access_twice = false;
    let mut refresh_twice = false;
    let mut i: usize = 0;
    proof {
        lemma_names_differ();
    }
    while i < fields.len()
        invariant
            i <= fields.len(),
            entries == field_entries(fields@),
            access_key@ == access_name(),
            refresh_key@ == refresh_name(),
            access_name() != refresh_name(),
            access_twice == (occurrences(entries.take(i as int), access_name()) > 1),
            refresh_twice == (occurrences(entries.take(i as int), refresh_name()) > 1),
            access_at is None <==> occurrences(entries.take(i as int), access_name()) == 0,
            refresh_at is None <==> occurrences(entries.take(i as int), refresh_name()) == 0,
            match access_at {
                Some(k) => k < i && value_of(entries.take(i as int), access_name()) == Some(entries[k as int].1),
                None => value_of(entries.take(i as int), access_name()) is None,
            },
            match refresh_at {
                Some(k) => k < i && value_of(entries.take(i as int), refresh_name()) == Some(entries[k as int].1),
                None => value_of(entries.take(i as int), refresh_name()) is None,
            },
        decreases fields.len() - i,
    {
        proof {
            assert(entries.take(i + 1).drop_last() =~= entries.take(i as int));
            assert(entries.take(i + 1).last() == entries[i as int]);
        }
        let name: &String = &fields[i].0;
        if name.eq(&access_key) {
            if access_at.is_some() {
                access_twice = true;
            }
            access_at = Some(i);
        } else if name.eq(&refresh_key) {
            if refresh_at.is_some() {
                refresh_twice = true;
            }
            refresh_at = Some(i);
        }
        i = i + 1;
    }
    proof {
        assert(entries.take(i as int) =~= entries);
    }
    if access_twice || refresh_twice {
        return Err(DecodeError::DuplicateField);
    }
    let access = match access_at {
        None => {
            return Err(DecodeError::MissingAccessToken);
        },
        Some(k) => match &fields[k].1 {
            FieldValue::Text(a) => a.clone(),
            _ => {
                return Err(DecodeError::AccessTokenNotText);
            },
        },
    };
    let refresh = match refresh_at {
        None => None,
        Some(k) => match &fields[k].1 {
            FieldValue::Null => None,
            FieldValue::Text(s) => {
                if s.as_str().is_empty() {
                    None
                } else {
                    Some(s.clone())
                }
            },
            FieldValue::Other => {
                return Err(DecodeError::RefreshTokenNotText);
            },
        },
    };
    Ok(AuthTokensQuery { access_token: access, refresh_token: refresh })
}

/// The structured form of a payload, as it is handed on to the application.
pub fn encode_fields(q: &AuthTokensQuery) -> (r: Vec<(String, FieldValue)>)
    ensures
        field_entries(r@) == encoded(q@),
{
    let refresh = match &q.refresh_token {
        Some(s) => FieldValue::Text(s.clone()),
        None => FieldValue::Null,
    };
    let r = vec![
        ("access_token".to_owned(), FieldValue::Text(q.access_token.clone())),
        ("refresh_token".to_owned(), refresh),
    ];
    assert(field_entries(r@) =~= encoded(q@));
    r
}

/// Once the other entries name no `refresh_token`, adding one changes
/// neither the `access_token` entries nor their count.
proof fn lemma_push_refresh(entries: Entries, v: FieldView)
    ensures
        occurrences(entries.push((refresh_name(), v)), access_name()) == occurrences(entries, access_name()),
        value_of(entries.push((refresh_name(), v)), access_name()) == value_of(entries, access_name()),
        occurrences(entries.push((refresh_name(), v)), refresh_name()) == occurrences(entries, refresh_name()) + 1,
        value_of(entries.push((refresh_name(), v)), refresh_name()) == Some(v),
{
    lemma_names_differ();
    assert(entries.push((refresh_name(), v)).drop_last() =~= entries);
}

/// A name that no entry carries has no value and no occurrence.
proof fn lemma_absent_name(entries: Entries, name: Seq<char>)
    requires
        forall|i: int| 0 <= i < entries.len() ==> #[trigger] entries[i].0 != name,
    ensures
        occurrences(entries, name) == 0,
        value_of(entries, name) is None,
    decreases entries.len(),
{
    if entries.len() > 0 {
        let rest = entries.drop_last();
        assert forall|i: int| 0 <= i < rest.len() implies #[trigger] rest[i].0 != name by {
            assert(rest[i] == entries[i]);
        }
        lemma_absent_name(rest, name);
        assert(entries.last() == entries[entries.len() - 1]);
    }
}

/// With an `access_token` string given once and no `refresh_token`, decoding
/// succeeds with no refresh token; adding an explicit null `refresh_token`
/// gives the same payload, and adding a string gives it as the refresh token
/// unless it is empty.
pub proof fn lemma_refresh_absent_or_null(entries: Entries, access: Seq<char>, refresh: Seq<char>)
    requires
        occurrences(entries, access_name()) == 1,
        value_of(entries, access_name()) == Some(FieldView::Text(access)),
        forall|i: int| 0 <= i < entries.len() ==> #[trigger] entries[i].0 != refresh_name(),
    ensures
        decoded(entries) == Ok::<TokensView, DecodeError>(TokensView { access_token: access, refresh_token: None }),
        decoded(entries.push((refresh_name(), FieldView::Null))) == decoded(entries),
        decoded(entries.push((refresh_name(), FieldView::Text(refresh)))) == Ok::<TokensView, DecodeError>(
            TokensView {
                access_token: access,
                refresh_token: if refresh.len() == 0 {
                    None
                } else {
                    Some(refresh)
                },
            },
        ),
{
    lemma_absent_name(entries, refresh_name());
    lemma_push_refresh(entries, FieldView::Null);
    lemma_push_refresh(entries, FieldView::Text(refresh));
}

/// Without an `access_token` entry, decoding fails.
pub proof fn lemma_missing_access_token_fails(entries: Entries)
    requires
        forall|i: int| 0 <= i < entries.len() ==> #[trigger] entries[i].0 != access_name(),
    ensures
        decoded(entries) is Err,
{
    lemma_absent_name(entries, access_name());
}

/// Decoding the structured form of a well-formed payload gives that payload
/// back, field for field.
pub proof fn lemma_round_trip(t: TokensView)
    requires
        t.wf(),
    ensures
        decoded(encoded(t)) == Ok::<TokensView, DecodeError>(t),
{
    let e = encoded(t);
    let first = seq![(access_name(), FieldView::Text(t.access_token))];
    assert(e =~= first.push(e[1]));
    assert(first.drop_last() =~= Seq::<(Seq<char>, FieldView)>::empty());
    lemma_names_differ();
    assert(occurrences(first.drop_last(), access_name()) == 0);
    assert(occurrences(first.drop_last(), refresh_name()) == 0);
    assert(first.last() == (access_name(), FieldView::Text(t.access_token)));
    assert(occurrences(first, access_name()) == 1);
    assert(occurrences(first, refresh_name()) == 0);
    assert(value_of(first, access_name()) == Some(FieldView::Text(t.access_token)));
    lemma_push_refresh(first, e[1].1);
}

} // verus!
