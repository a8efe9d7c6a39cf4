//! The character-level pieces of HTTP/1.1 parsing: character classes,
//! request methods, and the checks that the `http` crate makes of names,
//! values, paths and status codes.
use super::Method;
use crate::wire::starts_with;
use parser_helper::ParseHelper;
use vstd::prelude::*;

verus! {

/// Every byte of `input` is one of the bytes of `charset`.
pub open spec fn all_in(input: Seq<u8>, charset: Seq<u8>) -> bool {
    forall|i: int| 0 <= i < input.len() ==> charset.contains(#[trigger] input[i])
}

/// True if the input is just the character set.
pub fn just_charset(input: &[u8], charset: &[u8]) -> (r: bool)
    ensures
        r == all_in(input@, charset@),
{
    let mut i: usize = 0;
    while i < input.len()
        invariant
            i <= input@.len(),
            forall|j: int| 0 <= j < i ==> charset@.contains(#[trigger] input@[j]),
        decreases input@.len() - i,
    {
        let mut found = false;
        let mut k: usize = 0;
        while k < charset.len()
            invariant
                i < input@.len(),
                k <= charset@.len(),
                found <==> exists|m: int| 0 <= m < k && charset@[m] == input@[i as int],
            decreases charset@.len() - k,
        {
            if charset[k] == input[i] {
                found = true;
            }
            k = k + 1;
        }
        if !found {
            assert(!charset@.contains(input@[i as int]));
            return false;
        }
        i = i + 1;
    }
    true
}

/// The `n`-prefix of `input` is the largest prefix with `min <= n <
/// input.len()` that is made of `charset` bytes.
pub open spec fn largest_charset_prefix(input: Seq<u8>, charset: Seq<u8>, min: nat, n: int) -> bool {
    &&& min <= n < input.len()
    &&& all_in(input.take(n), charset)
    &&& forall|j: int| n < j < input.len() ==> !all_in(#[trigger] input.take(j), charset)
}

/// No prefix with `min <= n < input.len()` is made of `charset` bytes.
pub open spec fn no_charset_prefix(input: Seq<u8>, charset: Seq<u8>, min: nat) -> bool {
    forall|j: int| min <= j < input.len() ==> !all_in(#[trigger] input.take(j), charset)
}

/// `parser_helper::ParseHelper::take_largest_err` with the test
/// [`just_charset`]: of the prefixes whose length is at least `min` and
/// below the input's length, splits off the longest that is made of
/// `charset` bytes, or hands back `err` when there is none.
#[verifier::external_body]
pub(crate) fn take_largest_charset<'a>(
    input: &'a [u8],
    charset: &[u8],
    min: usize,
    err: &'static str,
) -> (r: Result<(&'a [u8], &'a [u8]), &'static str>)
    ensures
        match r {
            Ok((head, tail)) => {
                &&& largest_charset_prefix(input@, charset@, min as nat, head@.len() as int)
                &&& head@ == input@.take(head@.len() as int)
                &&& tail@ == input@.skip(head@.len() as int)
            },
            Err(e) => no_charset_prefix(input@, charset@, min as nat) && e == err,
        },
{
    input.take_largest_err(|i| just_charset(i, charset), min, err)
}

/// The names of the request methods, as bytes.
pub open spec fn method_name(m: Method) -> Seq<u8> {
    match m {
        Method::GET => seq![0x47u8, 0x45, 0x54],
        Method::POST => seq![0x50u8, 0x4f, 0x53, 0x54],
        Method::PUT => seq![0x50u8, 0x55, 0x54],
        Method::DELETE => seq![0x44u8, 0x45, 0x4c, 0x45, 0x54, 0x45],
        Method::PATCH => seq![0x50u8, 0x41, 0x54, 0x43, 0x48],
        Method::OPTIONS => seq![0x4fu8, 0x50, 0x54, 0x49, 0x4f, 0x4e, 0x53],
        Method::HEAD => seq![0x48u8, 0x45, 0x41, 0x44],
        Method::TRACE => seq![0x54u8, 0x52, 0x41, 0x43, 0x45],
        Method::CONNECT => seq![0x43u8, 0x4f, 0x4e, 0x4e, 0x45, 0x43, 0x54],
    }
}

impl Method {
    /// The name of the method, as bytes.
    pub fn as_bytes(&self) -> (r: &'static [u8])
        ensures
            r@ == method_name(*self),
    {
        let r: &'static [u8] = match self {
            Method::GET => &[0x47u8, 0x45, 0x54],
            Method::POST => &[0x50u8, 0x4f, 0x53, 0x54],
            Method::PUT => &[0x50u8, 0x55, 0x54],
            Method::DELETE => &[0x44u8, 0x45, 0x4c, 0x45, 0x54, 0x45],
            Method::PATCH => &[0x50u8, 0x41, 0x54, 0x43, 0x48],
            Method::OPTIONS => &[0x4fu8, 0x50, 0x54, 0x49, 0x4f, 0x4e, 0x53],
            Method::HEAD => &[0x48u8, 0x45, 0x41, 0x44],
            Method::TRACE => &[0x54u8, 0x52, 0x41, 0x43, 0x45],
            Method::CONNECT => &[0x43u8, 0x4f, 0x4e, 0x4e, 0x45, 0x43, 0x54],
        };
        assert(r@ =~= method_name(*self));
        r
    }
}

/// The input starts with the name of a request method.
pub open spec fn starts_with_method(input: Seq<u8>) -> bool {
    exists|m: Method| starts_with(input, #[trigger] method_name(m))
}

/// The method whose name the input starts with. No method name is a
/// prefix of another, so there is at most one.
pub open spec fn method_at_start(input: Seq<u8>) -> Option<Method> {
    if starts_with(input, method_name(Method::GET)) {
        Some(Method::GET)
    } else if starts_with(input, method_name(Method::POST)) {
        Some(Method::POST)
    } else if starts_with(input, method_name(Method::PUT)) {
        Some(Method::PUT)
    } else if starts_with(input, method_name(Method::DELETE)) {
        Some(Method::DELETE)
    } else if starts_with(input, method_name(Method::PATCH)) {
        Some(Method::PATCH)
    } else if starts_with(input, method_name(Method::OPTIONS)) {
        Some(Method::OPTIONS)
    } else if starts_with(input, method_name(Method::HEAD)) {
        Some(Method::HEAD)
    } else if starts_with(input, method_name(Method::TRACE)) {
        Some(Method::TRACE)
    } else if starts_with(input, method_name(Method::CONNECT)) {
        Some(Method::CONNECT)
    } else {
        None
    }
}

/// An input starts with a method name exactly when [`method_at_start`]
/// finds one, and then it starts with that one and no other.
pub proof fn lemma_method_at_start(input: Seq<u8>)
    ensures
        starts_with_method(input) <==> method_at_start(input) is Some,
        method_at_start(input) matches Some(m) ==> starts_with(input, method_name(m)),
        forall|m: Method| #[trigger] starts_with(input, method_name(m)) ==> method_at_start(input)
            == Some(m),
{
    assert forall|m: Method| #[trigger] starts_with(input, method_name(m)) implies method_at_start(
        input,
    ) == Some(m) by {
        let name = method_name(m);
        assert(input.take(name.len() as int) == name);
        assert forall|m2: Method| #[trigger] starts_with(input, method_name(m2)) implies m2 == m by {
            let n2 = method_name(m2);
            assert(input.take(n2.len() as int) == n2);
            if m2 != m {
                let k = if name.len() < n2.len() { name.len() } else { n2.len() };
                assert(forall|i: int| 0 <= i < k ==> name[i] == input[i] && n2[i] == input[i]);
                assert(name[0] == n2[0]);
                assert(false) by {
                    reveal_with_fuel(method_name, 1);
                    assert(name.len() >= 3 && n2.len() >= 3);
                    assert(name[1] == n2[1]);
                    assert(name[2] == n2[2]);
                }
            }
        }
    }
    if let Some(m) = method_at_start(input) {
        assert(starts_with(input, method_name(m)));
    }
}

/// True if the input starts with a method.
pub fn is_method(input: &[u8]) -> (r: bool)
    ensures
        r == starts_with_method(input@),
{
    proof {
        lemma_method_at_start(input@);
    }
    let methods: [&[u8]; 9] = [
        &[0x47u8, 0x45, 0x54],
        &[0x50u8, 0x4f, 0x53, 0x54],
        &[0x50u8, 0x55, 0x54],
        &[0x44u8, 0x45, 0x4c, 0x45, 0x54, 0x45],
        &[0x50u8, 0x41, 0x54, 0x43, 0x48],
        &[0x4fu8, 0x50, 0x54, 0x49, 0x4f, 0x4e, 0x53],
        &[0x48u8, 0x45, 0x41, 0x44],
        &[0x54u8, 0x52, 0x41, 0x43, 0x45],
        &[0x43u8, 0x4f, 0x4e, 0x4e, 0x45, 0x43, 0x54],
    ];
    let ghost names: Seq<Seq<u8>> = seq![
        method_name(Method::GET),
        method_name(Method::POST),
        method_name(Method::PUT),
        method_name(Method::DELETE),
        method_name(Method::PATCH),
        method_name(Method::OPTIONS),
        method_name(Method::HEAD),
        method_name(Method::TRACE),
        method_name(Method::CONNECT),
    ];
    assert(methods@.map_values(|s: &[u8]| s@) =~= names);
    let mut k: usize = 0;
    while k < 9
        invariant
            k <= 9,
            methods@.map_values(|s: &[u8]| s@) == names,
            names == seq![
                method_name(Method::GET),
                method_name(Method::POST),
                method_name(Method::PUT),
                method_name(Method::DELETE),
                method_name(Method::PATCH),
                method_name(Method::OPTIONS),
                method_name(Method::HEAD),
                method_name(Method::TRACE),
                method_name(Method::CONNECT),
            ],
            forall|j: int| 0 <= j < k ==> !starts_with(input@, #[trigger] names[j]),
        decreases 9 - k,
    {
        let method = methods[k];
        assert(method@ == names[k as int]);
        if prefix_equals(input, method) {
            return true;
        }
        k = k + 1;
    }
    assert(!starts_with_method(input@)) by {
        assert forall|m: Method| !starts_with(input@, #[trigger] method_name(m)) by {
            match m {
                Method::GET => assert(names[0] == method_name(m)),
                Method::POST => assert(names[1] == method_name(m)),
                Method::PUT => assert(names[2] == method_name(m)),
                Method::DELETE => assert(names[3] == method_name(m)),
                Method::PATCH => assert(names[4] == method_name(m)),
                Method::OPTIONS => assert(names[5] == method_name(m)),
                Method::HEAD => assert(names[6] == method_name(m)),
                Method::TRACE => assert(names[7] == method_name(m)),
                Method::CONNECT => assert(names[8] == method_name(m)),
            }
        }
    }
    false
}

/// The input starts with `pattern`.
pub fn prefix_equals(input: &[u8], pattern: &[u8]) -> (r: bool)
    ensures
        r == starts_with(input@, pattern@),
{
    if input.len() < pattern.len() {
        return false;
    }
    let mut i: usize = 0;
    while i < pattern.len()
        invariant
            i <= pattern@.len() <= input@.len(),
            forall|j: int| 0 <= j < i ==> input@[j] == pattern@[j],
        decreases pattern@.len() - i,
    {
        if input[i] != pattern[i] {
            return false;
        }
        i = i + 1;
    }
    assert(input@.take(pattern@.len() as int) =~= pattern@);
    true
}

/// The two byte strings are equal.
pub fn bytes_equal(a: &[u8], b: &[u8]) -> (r: bool)
    ensures
        r == (a@ == b@),
{
    if a.len() != b.len() {
        return false;
    }
    let r = prefix_equals(a, b);
    assert(a@.take(b@.len() as int) =~= a@);
    r
}

/// `n` is the smallest length with `min <= n < input.len()` whose prefix
/// starts with a method name.
pub open spec fn smallest_method_prefix(input: Seq<u8>, min: nat, n: int) -> bool {
    &&& min <= n < input.len()
    &&& starts_with_method(input.take(n))
    &&& forall|j: int| min <= j < n ==> !starts_with_method(#[trigger] input.take(j))
}

/// `parser_helper::ParseHelper::take_smallest_err` with the test
/// [`is_method`]: of the prefixes whose length is at least `min` and below
/// the input's length, splits off the shortest that starts with a method
/// name, or hands back `err` when there is none.
#[verifier::external_body]
pub(crate) fn take_smallest_method<'a>(input: &'a [u8], min: usize, err: &'static str) -> (r: Result<
    (&'a [u8], &'a [u8]),
    &'static str,
>)
    ensures
        match r {
            Ok((head, tail)) => {
                &&& smallest_method_prefix(input@, min as nat, head@.len() as int)
                &&& head@ == input@.take(head@.len() as int)
                &&& tail@ == input@.skip(head@.len() as int)
            },
            Err(e) => {
                &&& forall|j: int| min <= j < input@.len() ==> !starts_with_method(
                    #[trigger] input@.take(j),
                )
                &&& e == err
            },
        },
{
    input.take_smallest_err(|seq| is_method(seq), min, err)
}

/// The method that a request begins with: one of the method names,
/// followed by at least one more byte.
pub open spec fn request_method(input: Seq<u8>) -> Option<Method> {
    match method_at_start(input) {
        Some(m) => if method_name(m).len() < input.len() {
            Some(m)
        } else {
            None
        },
        None => None,
    }
}

/// Read a method from the input and return remaining sequence.
pub fn get_method(input: &[u8]) -> (r: Result<(Method, &[u8]), &'static str>)
    ensures
        match request_method(input@) {
            Some(m) => r matches Ok((m2, rem)) && m2 == m && rem@ == input@.skip(
                method_name(m).len() as int,
            ),
            None => r == Err::<(Method, &[u8]), &'static str>("Expected a block-capital method"),
        },
{
    proof {
        lemma_method_at_start(input@);
    }
    let (method, rem) = match take_smallest_method(input, 1, "Expected a block-capital method") {
        Ok(split) => split,
        Err(e) => {
            proof {
                if let Some(m) = request_method(input@) {
                    let n = method_name(m).len() as int;
                    assert(input@.take(n).take(n) == method_name(m));
                    assert(starts_with(input@.take(n), method_name(m)));
                    assert(starts_with_method(input@.take(n)));
                }
            }
            return Err(e);
        },
    };
    let ghost n = method@.len() as int;
    proof {
        lemma_method_at_start(input@.take(n));
        let m = method_at_start(input@.take(n)).unwrap();
        let k = method_name(m).len() as int;
        assert(input@.take(n).take(k) == method_name(m));
        assert(input@.take(k) =~= input@.take(n).take(k));
        assert(starts_with(input@, method_name(m)));
        assert(method_at_start(input@) == Some(m));
        if k < n {
            assert(input@.take(k).take(k) =~= method_name(m));
            assert(starts_with_method(input@.take(k)));
        }
        assert(method@ =~= method_name(m));
    }
    let method = if bytes_equal(method, &[0x47u8, 0x45, 0x54]) {
        Method::GET
    } else if bytes_equal(method, &[0x50u8, 0x4f, 0x53, 0x54]) {
        Method::POST
    } else if bytes_equal(method, &[0x50u8, 0x55, 0x54]) {
        Method::PUT
    } else if bytes_equal(method, &[0x44u8, 0x45, 0x4c, 0x45, 0x54, 0x45]) {
        Method::DELETE
    } else if bytes_equal(method, &[0x50u8, 0x41, 0x54, 0x43, 0x48]) {
        Method::PATCH
    } else if bytes_equal(method, &[0x4fu8, 0x50, 0x54, 0x49, 0x4f, 0x4e, 0x53]) {
        Method::OPTIONS
    } else if bytes_equal(method, &[0x48u8, 0x45, 0x41, 0x44]) {
        Method::HEAD
    } else if bytes_equal(method, &[0x54u8, 0x52, 0x41, 0x43, 0x45]) {
        Method::TRACE
    } else if bytes_equal(method, &[0x43u8, 0x4f, 0x4e, 0x4e, 0x45, 0x43, 0x54]) {
        Method::CONNECT
    } else {
        return Err("Invalid method");
    };
    Ok((method, rem))
}

/// How many bytes at the start of `s` are `charset` bytes.
pub open spec fn leading_count(s: Seq<u8>, charset: Seq<u8>) -> nat
    decreases s.len(),
{
    if s.len() == 0 {
        0
    } else if charset.contains(s[0]) {
        1 + leading_count(s.drop_first(), charset)
    } else {
        0
    }
}

/// The length of the longest prefix made of `charset` bytes whose length
/// is at least `min` and below the input's length, if there is one.
pub open spec fn largest_prefix(s: Seq<u8>, charset: Seq<u8>, min: nat) -> Option<nat> {
    let k = if leading_count(s, charset) < s.len() {
        leading_count(s, charset)
    } else {
        (s.len() - 1) as nat
    };
    if s.len() > 0 && min <= k {
        Some(k)
    } else {
        None
    }
}

/// A prefix is made of `charset` bytes exactly when it is no longer than
/// the leading run of them.
pub proof fn lemma_leading_count(s: Seq<u8>, charset: Seq<u8>, j: int)
    requires
        0 <= j <= s.len(),
    ensures
        leading_count(s, charset) <= s.len(),
        all_in(s.take(j), charset) <==> j <= leading_count(s, charset),
    decreases s.len(),
{
    if s.len() > 0 {
        if j > 0 {
            lemma_leading_count(s.drop_first(), charset, j - 1);
            assert forall|i: int| 0 <= i < j - 1 implies #[trigger] s.drop_first().take(j - 1)[i] == s.take(
                j,
            )[i + 1] by {}
            if all_in(s.take(j), charset) {
                assert(charset.contains(s.take(j)[0]));
                assert(all_in(s.drop_first().take(j - 1), charset)) by {
                    assert forall|i: int| 0 <= i < j - 1 implies charset.contains(
                        #[trigger] s.drop_first().take(j - 1)[i],
                    ) by {
                        assert(charset.contains(s.take(j)[i + 1]));
                    }
                }
            }
            if j <= leading_count(s, charset) {
                assert(charset.contains(s[0]));
                assert forall|i: int| 0 <= i < j implies charset.contains(#[trigger] s.take(j)[i]) by {
                    if i > 0 {
                        assert(s.take(j)[i] == s.drop_first().take(j - 1)[i - 1]);
                    }
                }
            }
        } else {
            lemma_leading_count(s.drop_first(), charset, 0);
        }
    }
}

/// The split that [`take_largest_charset`] finds is the one that
/// [`largest_prefix`] names, and it fails exactly when that is `None`.
pub proof fn lemma_largest_prefix(s: Seq<u8>, charset: Seq<u8>, min: nat)
    ensures
        forall|n: int| largest_charset_prefix(s, charset, min, n) ==> largest_prefix(s, charset, min)
            == Some(n as nat),
        no_charset_prefix(s, charset, min) ==> largest_prefix(s, charset, min) is None,
{
    lemma_leading_count(s, charset, 0);
    let lc = leading_count(s, charset);
    assert forall|n: int| largest_charset_prefix(s, charset, min, n) implies largest_prefix(
        s,
        charset,
        min,
    ) == Some(n as nat) by {
        lemma_leading_count(s, charset, n);
        if lc < s.len() && n < lc {
            lemma_leading_count(s, charset, lc as int);
            assert(!all_in(s.take(lc as int), charset));
        } else if lc >= s.len() && n < s.len() - 1 {
            lemma_leading_count(s, charset, s.len() - 1);
            assert(!all_in(s.take(s.len() - 1), charset));
        }
    }
    if no_charset_prefix(s, charset, min) {
        if let Some(k) = largest_prefix(s, charset, min) {
            lemma_leading_count(s, charset, k as int);
            assert(!all_in(s.take(k as int), charset));
        }
    }
}

/// The characters that ASCII bytes stand for.
pub open spec fn ascii_chars(bytes: Seq<u8>) -> Seq<char> {
    bytes.map_values(|b: u8| b as char)
}

/// Every byte is ASCII.
pub open spec fn is_ascii(bytes: Seq<u8>) -> bool {
    forall|i: int| 0 <= i < bytes.len() ==> #[trigger] bytes[i] < 128
}

/// What `std::str::from_utf8` makes of the bytes: the characters they
/// encode, or nothing when they are not UTF-8.
pub uninterp spec fn spec_from_utf8(bytes: Seq<u8>) -> Option<Seq<char>>;

/// `std::str::from_utf8`, copied into a `String`. ASCII is UTF-8, one
/// character per byte.
#[verifier::external_body]
pub(crate) fn utf8_to_string(bytes: &[u8]) -> (r: Option<String>)
    ensures
        match r {
            Some(s) => spec_from_utf8(bytes@) == Some(s@),
            None => spec_from_utf8(bytes@) is None,
        },
        is_ascii(bytes@) ==> r is Some && r.unwrap()@ == ascii_chars(bytes@),
{
    match std::str::from_utf8(bytes) {
        Ok(s) => Some(s.to_string()),
        Err(_) => None,
    }
}

/// The text is a URI that `http::Uri::from_str` accepts.
pub uninterp spec fn spec_uri_valid(text: Seq<char>) -> bool;

/// `http::Uri::from_str`: does the text parse as a URI.
#[verifier::external_body]
pub(crate) fn uri_valid(text: &str) -> (r: bool)
    ensures
        r == spec_uri_valid(text@),
{
    text.parse::<http::Uri>().is_ok()
}

/// The path part of a URI, as `http::Uri::path` gives it.
pub uninterp spec fn spec_uri_path(text: Seq<char>) -> Seq<char>;

/// `http::Uri::path` of the URI that the text parses as.
#[verifier::external_body]
pub(crate) fn uri_path(text: &str) -> (r: String)
    requires
        spec_uri_valid(text@),
    ensures
        r@ == spec_uri_path(text@),
{
    text.parse::<http::Uri>().unwrap().path().to_string()
}

/// The name that `http::HeaderName::from_bytes` makes of the bytes (as
/// the bytes of its `as_str`), or nothing when it refuses them.
pub uninterp spec fn spec_header_name(bytes: Seq<u8>) -> Option<Seq<u8>>;

/// `http::HeaderName::from_bytes`: checks a header name and gives it in
/// its normal (lower case) form.
#[verifier::external_body]
pub(crate) fn header_name_from_bytes(bytes: &[u8]) -> (r: Option<Vec<u8>>)
    ensures
        match r {
            Some(n) => spec_header_name(bytes@) == Some(n@),
            None => spec_header_name(bytes@) is None,
        },
{
    match http::HeaderName::from_bytes(bytes) {
        Ok(name) => Some(name.as_str().as_bytes().to_vec()),
        Err(_) => None,
    }
}

/// A byte that a header value may hold: visible characters, the space,
/// the tab and every byte above 127 except DEL.
pub open spec fn header_value_byte(b: u8) -> bool {
    (b >= 32 && b != 127) || b == 9
}

/// Every byte may stand in a header value.
pub open spec fn header_value_valid(bytes: Seq<u8>) -> bool {
    forall|i: int| 0 <= i < bytes.len() ==> header_value_byte(#[trigger] bytes[i])
}

/// `http::HeaderValue::from_bytes`: the bytes form a header value exactly
/// when each is allowed.
#[verifier::external_body]
pub(crate) fn header_value_from_bytes(bytes: &[u8]) -> (r: bool)
    ensures
        r == header_value_valid(bytes@),
{
    http::HeaderValue::from_bytes(bytes).is_ok()
}

/// The decimal digit of a byte, when it is one.
pub open spec fn digit(b: u8) -> int {
    b as int - 48
}

/// The status code that three digit bytes spell, when the first is not 0.
pub open spec fn status_of(bytes: Seq<u8>) -> Option<u16> {
    if bytes.len() == 3 && 1 <= digit(bytes[0]) <= 9 && 0 <= digit(bytes[1]) <= 9 && 0 <= digit(
        bytes[2],
    ) <= 9 {
        Some((digit(bytes[0]) * 100 + digit(bytes[1]) * 10 + digit(bytes[2])) as u16)
    } else {
        None
    }
}

/// `http::StatusCode::from_bytes`: three decimal digits, the first not 0.
#[verifier::external_body]
pub(crate) fn status_code_from_bytes(bytes: &[u8]) -> (r: Option<u16>)
    ensures
        r == status_of(bytes@),
{
    match http::StatusCode::from_bytes(bytes) {
        Ok(status) => Some(status.as_u16()),
        Err(_) => None,
    }
}

/// The reason phrase that `http::StatusCode::canonical_reason` gives a
/// status code, if it knows one.
pub uninterp spec fn spec_canonical_reason(status: u16) -> Option<Seq<char>>;

/// `http::StatusCode::canonical_reason` of a status code.
#[verifier::external_body]
pub(crate) fn canonical_reason(status: u16) -> (r: Option<&'static str>)
    requires
        100 <= status <= 999,
    ensures
        match r {
            Some(s) => spec_canonical_reason(status) == Some(s@),
            None => spec_canonical_reason(status) is None,
        },
{
    match http::StatusCode::from_u16(status) {
        Ok(code) => code.canonical_reason(),
        Err(_) => None,
    }
}

/// Space and tab.
pub open spec fn whitespace() -> Seq<u8> {
    seq![0x20u8, 0x09]
}

pub fn whitespace_bytes() -> (r: [u8; 2])
    ensures
        r@ == whitespace(),
{
    let r: [u8; 2] = [0x20u8, 0x09];
    assert(r@ =~= whitespace());
    r
}

/// Colon, space and tab.
pub open spec fn colon_whitespace() -> Seq<u8> {
    seq![0x3au8, 0x20, 0x09]
}

pub fn colon_whitespace_bytes() -> (r: [u8; 3])
    ensures
        r@ == colon_whitespace(),
{
    let r: [u8; 3] = [0x3au8, 0x20, 0x09];
    assert(r@ =~= colon_whitespace());
    r
}

/// The bytes of a request path: letters, digits and
/// `-._~:/?#[]@!$&'()*+,;=%`.
pub open spec fn path_charset() -> Seq<u8> {
    seq![0x41u8, 0x42, 0x43, 0x44, 0x45, 0x46, 0x47, 0x48, 0x49, 0x4a, 0x4b, 0x4c, 0x4d, 0x4e, 0x4f, 0x50, 0x51, 0x52, 0x53, 0x54, 0x55, 0x56, 0x57, 0x58, 0x59, 0x5a, 0x61, 0x62, 0x63, 0x64, 0x65, 0x66, 0x67, 0x68, 0x69, 0x6a, 0x6b, 0x6c, 0x6d, 0x6e, 0x6f, 0x70, 0x71, 0x72, 0x73, 0x74, 0x75, 0x76, 0x77, 0x78, 0x79, 0x7a, 0x30, 0x31, 0x32, 0x33, 0x34, 0x35, 0x36, 0x37, 0x38, 0x39, 0x2d, 0x2e, 0x5f, 0x7e, 0x3a, 0x2f, 0x3f, 0x23, 0x5b, 0x5d, 0x40, 0x21, 0x24, 0x26, 0x27, 0x28, 0x29, 0x2a, 0x2b, 0x2c, 0x3b, 0x3d, 0x25]
}

pub fn path_charset_bytes() -> (r: [u8; 85])
    ensures
        r@ == path_charset(),
{
    let r: [u8; 85] = [0x41u8, 0x42, 0x43, 0x44, 0x45, 0x46, 0x47, 0x48, 0x49, 0x4a, 0x4b, 0x4c, 0x4d, 0x4e, 0x4f, 0x50, 0x51, 0x52, 0x53, 0x54, 0x55, 0x56, 0x57, 0x58, 0x59, 0x5a, 0x61, 0x62, 0x63, 0x64, 0x65, 0x66, 0x67, 0x68, 0x69, 0x6a, 0x6b, 0x6c, 0x6d, 0x6e, 0x6f, 0x70, 0x71, 0x72, 0x73, 0x74, 0x75, 0x76, 0x77, 0x78, 0x79, 0x7a, 0x30, 0x31, 0x32, 0x33, 0x34, 0x35, 0x36, 0x37, 0x38, 0x39, 0x2d, 0x2e, 0x5f, 0x7e, 0x3a, 0x2f, 0x3f, 0x23, 0x5b, 0x5d, 0x40, 0x21, 0x24, 0x26, 0x27, 0x28, 0x29, 0x2a, 0x2b, 0x2c, 0x3b, 0x3d, 0x25];
    assert(r@ =~= path_charset());
    r
}

/// Every byte of the path character set is ASCII.
pub proof fn lemma_path_charset_ascii(path: Seq<u8>)
    requires
        all_in(path, path_charset()),
    ensures
        is_ascii(path),
{
    assert forall|i: int| 0 <= i < path.len() implies #[trigger] path[i] < 128 by {
        assert(path_charset().contains(path[i]));
        let k = choose|k: int| 0 <= k < path_charset().len() && path_charset()[k] == path[i];
        assert(path_charset()[k] < 128);
    }
}

/// A byte that RFC 3986 lets stand in a path, query or fragment: ALPHA,
/// DIGIT, the unreserved marks `-._~`, the delimiters `:/?#[]@` and
/// `!$&'()*+,;=`, and the `%` of a percent-encoding.
pub open spec fn rfc3986_byte(b: u8) -> bool {
    ||| 0x41 <= b <= 0x5a
    ||| 0x61 <= b <= 0x7a
    ||| 0x30 <= b <= 0x39
    ||| b == 0x2d || b == 0x2e || b == 0x5f || b == 0x7e
    ||| b == 0x3a || b == 0x2f || b == 0x3f || b == 0x23 || b == 0x5b || b == 0x5d || b == 0x40
    ||| b == 0x21 || b == 0x24 || b == 0x26 || b == 0x27 || b == 0x28 || b == 0x29 || b == 0x2a
        || b == 0x2b || b == 0x2c || b == 0x3b || b == 0x3d
    ||| b == 0x25
}

/// The path character set holds exactly the bytes that RFC 3986 allows in
/// a path, a query and a fragment.
pub proof fn lemma_path_charset_rfc3986(b: u8)
    ensures
        path_charset().contains(b) <==> rfc3986_byte(b),
{
    let cs = path_charset();
    assert(cs.len() == 85);
    if cs.contains(b) {
        let k = choose|k: int| 0 <= k < cs.len() && cs[k] == b;
        assert(rfc3986_byte(cs[k]));
    }
    if rfc3986_byte(b) {
        if 0x41 <= b <= 0x5a {
            assert(cs[b - 0x41] == b);
        } else if 0x61 <= b <= 0x7a {
            assert(cs[b - 0x61 + 26] == b);
        } else if 0x30 <= b <= 0x39 {
            assert(cs[b - 0x30 + 52] == b);
        } else {
            let others = cs.skip(62);
            assert(others =~= seq![0x2du8, 0x2e, 0x5f, 0x7e, 0x3a, 0x2f, 0x3f, 0x23, 0x5b, 0x5d, 0x40, 0x21, 0x24, 0x26, 0x27, 0x28, 0x29, 0x2a, 0x2b, 0x2c, 0x3b, 0x3d, 0x25]);
            assert(others.contains(b));
            let j = choose|j: int| 0 <= j < others.len() && others[j] == b;
            assert(cs[62 + j] == b);
        }
    }
}

/// `HTTP/1.1`.
pub open spec fn http11() -> Seq<u8> {
    seq![0x48u8, 0x54, 0x54, 0x50, 0x2f, 0x31, 0x2e, 0x31]
}

/// `\r\n`.
pub open spec fn crlf() -> Seq<u8> {
    seq![0x0du8, 0x0a]
}

/// `\r\n\r\n`.
pub open spec fn crlf_crlf() -> Seq<u8> {
    seq![0x0du8, 0x0a, 0x0d, 0x0a]
}

} // verus!
