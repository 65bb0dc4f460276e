//! Communities, the tenants of the store, and the context a request runs in.

use uuid::Uuid;
use vstd::arithmetic::div_mod::lemma_div_denominator;
use vstd::arithmetic::power::{lemma_pow0, lemma_pow_positive, pow};
use vstd::prelude::*;

verus! {

/// `uuid::Uuid`, carried as an opaque value.
#[verifier::external_type_specification]
#[verifier::external_body]
pub struct ExUuid(Uuid);

/// The 128-bit number of a UUID, most significant byte first, as
/// `Uuid::as_u128` returns it.
pub uninterp spec fn uuid_number(uuid: Uuid) -> u128;

/// `Uuid::as_u128`: the UUID's number.
pub assume_specification[ Uuid::as_u128 ](uuid: &Uuid) -> (number: u128)
    ensures
        number == uuid_number(*uuid),
;

/// The lower-case hexadecimal digit of a value below sixteen.
pub open spec fn hex_digit(value: nat) -> char {
    if value < 10 {
        ('0' as nat + value) as char
    } else {
        ('a' as nat + value - 10) as char
    }
}

/// The `width` lowest hexadecimal digits of `number`, most significant first.
pub open spec fn hex_digits(number: nat, width: nat) -> Seq<char>
    decreases width,
{
    if width == 0 {
        Seq::empty()
    } else {
        hex_digits(number / 16, (width - 1) as nat).push(hex_digit(number % 16))
    }
}

/// The hyphenated text of a 128-bit number: thirty-two lower-case hexadecimal
/// digits in groups of eight, four, four, four and twelve.
pub open spec fn hyphenated(number: u128) -> Seq<char> {
    let digits = hex_digits(number as nat, 32);
    digits.subrange(0, 8) + seq!['-'] + digits.subrange(8, 12) + seq!['-'] + digits.subrange(12, 16)
        + seq!['-'] + digits.subrange(16, 20) + seq!['-'] + digits.subrange(20, 32)
}

/// `Uuid::to_string`, on the UUID that `Uuid::from_u128` makes of the number:
/// the text is the number's hyphenated form.
#[verifier::external_body]
fn uuid_text(number: u128) -> (text: String)
    ensures
        text@ == hyphenated(number),
{
    Uuid::from_u128(number).to_string()
}

/// Sixteen to the power of `width`.
spec fn hex_bound(width: nat) -> nat
    decreases width,
{
    if width == 0 {
        1
    } else {
        16 * hex_bound((width - 1) as nat)
    }
}

proof fn lemma_hex_digits_len(number: nat, width: nat)
    ensures
        hex_digits(number, width).len() == width,
    decreases width,
{
    if width > 0 {
        lemma_hex_digits_len(number / 16, (width - 1) as nat);
    }
}

proof fn lemma_hex_digits_injective(a: nat, b: nat, width: nat)
    requires
        a < hex_bound(width),
        b < hex_bound(width),
        hex_digits(a, width) == hex_digits(b, width),
    ensures
        a == b,
    decreases width,
{
    if width > 0 {
        let rest = (width - 1) as nat;
        let (front_a, front_b) = (hex_digits(a / 16, rest), hex_digits(b / 16, rest));
        assert(front_a.push(hex_digit(a % 16)).drop_last() == front_a);
        assert(front_b.push(hex_digit(b % 16)).drop_last() == front_b);
        assert(front_a.push(hex_digit(a % 16)).last() == hex_digit(a % 16));
        assert(front_b.push(hex_digit(b % 16)).last() == hex_digit(b % 16));
        lemma_hex_digits_injective(a / 16, b / 16, rest);
    }
}

proof fn lemma_hex_bound_of_u128()
    ensures
        hex_bound(32) == 0x1_0000_0000_0000_0000_0000_0000_0000_0000,
{
    reveal_with_fuel(hex_bound, 33);
}

/// A hyphenated text has thirty-six characters, none of them a slash or a dot.
pub proof fn hyphenated_shape(number: u128)
    ensures
        hyphenated(number).len() == 36,
        !hyphenated(number).contains('/'),
        !hyphenated(number).contains('.'),
{
    lemma_hex_digits_len(number as nat, 32);
    lemma_hex_digits_plain(number as nat, 32);
}

proof fn lemma_hex_digits_plain(number: nat, width: nat)
    ensures
        forall|i: int|
            0 <= i < hex_digits(number, width).len() ==> hex_digits(number, width)[i] != '/'
                && hex_digits(number, width)[i] != '.',
    decreases width,
{
    if width > 0 {
        let front = hex_digits(number / 16, (width - 1) as nat);
        lemma_hex_digits_plain(number / 16, (width - 1) as nat);
        assert forall|i: int| 0 <= i < hex_digits(number, width).len() implies hex_digits(
            number,
            width,
        )[i] != '/' && hex_digits(number, width)[i] != '.' by {
            if i < front.len() {
                assert(hex_digits(number, width)[i] == front[i]);
            }
        }
    }
}

/// Different numbers have different hyphenated texts.
pub proof fn hyphenated_is_injective(a: u128, b: u128)
    requires
        hyphenated(a) == hyphenated(b),
    ensures
        a == b,
{
    let (da, db) = (hex_digits(a as nat, 32), hex_digits(b as nat, 32));
    lemma_hex_digits_len(a as nat, 32);
    lemma_hex_digits_len(b as nat, 32);
    let (ta, tb) = (hyphenated(a), hyphenated(b));
    assert forall|i: int| 0 <= i < 32 implies da[i] == db[i] by {
        let j = if i < 8 {
            i
        } else if i < 12 {
            i + 1
        } else if i < 16 {
            i + 2
        } else if i < 20 {
            i + 3
        } else {
            i + 4
        };
        assert(ta[j] == da[i]);
        assert(tb[j] == db[i]);
    }
    assert(da =~= db);
    lemma_hex_bound_of_u128();
    lemma_hex_digits_injective(a as nat, b as nat, 32);
}

/// The digit at a place of `hex_digits` is the number's digit of that weight.
proof fn lemma_hex_digits_at(number: nat, width: nat, i: int)
    requires
        0 <= i < width,
    ensures
        hex_digits(number, width).len() == width,
        hex_digits(number, width)[i] == hex_digit(
            ((number as int / pow(16, (width - 1 - i) as nat)) % 16) as nat,
        ),
    decreases width,
{
    lemma_hex_digits_len(number, width);
    let rest = (width - 1) as nat;
    lemma_hex_digits_len(number / 16, rest);
    if i == width - 1 {
        lemma_pow0(16);
        assert(number as int / 1 == number as int);
    } else {
        lemma_hex_digits_at(number / 16, rest, i);
        let k = (rest - 1 - i) as nat;
        reveal(pow);
        assert(pow(16, (width - 1 - i) as nat) == 16 * pow(16, k));
        lemma_pow_positive(16, k);
        lemma_div_denominator(number as int, 16, pow(16, k));
        assert(hex_digits(number, width)[i] == hex_digits(number / 16, rest)[i]);
    }
}

/// A hyphenated text has a hyphen at the four places between its groups, and
/// everywhere else the number's hexadecimal digit of the place's weight, from
/// `0` to `9` and then from `a` to `f`.
pub proof fn hyphenated_spells_the_number(number: u128, i: int)
    requires
        0 <= i < 32,
    ensures
        hyphenated(number).len() == 36,
        hyphenated(number)[8] == '-',
        hyphenated(number)[13] == '-',
        hyphenated(number)[18] == '-',
        hyphenated(number)[23] == '-',
        ({
            let digit = (number as int / pow(16, (31 - i) as nat)) % 16;
            let place = if i < 8 {
                i
            } else if i < 12 {
                i + 1
            } else if i < 16 {
                i + 2
            } else if i < 20 {
                i + 3
            } else {
                i + 4
            };
            hyphenated(number)[place] as int == if digit < 10 {
                '0' as int + digit
            } else {
                'a' as int + digit - 10
            }
        }),
{
    lemma_hex_digits_at(number as nat, 32, i);
    hyphenated_shape(number);
    let digits = hex_digits(number as nat, 32);
    let digit = (number as int / pow(16, (31 - i) as nat)) % 16;
    assert(0 <= digit < 16);
    let place = if i < 8 {
        i
    } else if i < 12 {
        i + 1
    } else if i < 16 {
        i + 2
    } else if i < 20 {
        i + 3
    } else {
        i + 4
    };
    assert(hyphenated(number)[place] == digits[i]);
}

/// Identifies a community.
#[derive(Clone, Copy, Debug, PartialEq, Eq, Structural)]
pub struct CommunityId {
    /// The 128-bit number of the community's UUID.
    pub number: u128,
}

impl View for CommunityId {
    type V = u128;

    open spec fn view(&self) -> u128 {
        self.number
    }
}

impl CommunityId {
    /// The community that a UUID names.
    pub fn from_uuid(uuid: Uuid) -> (community: Self)
        ensures
            community@ == uuid_number(uuid),
            community.number == uuid_number(uuid),
    {
        CommunityId { number: uuid.as_u128() }
    }

    /// The community's UUID in hyphenated lower-case form.
    pub fn to_string(&self) -> (text: String)
        ensures
            text@ == hyphenated(self@),
            text@ == hyphenated(self.number),
    {
        uuid_text(self.number)
    }
}

/// The tenant a request was resolved to by the server.
#[derive(Clone, Debug)]
pub struct TenantContext {
    community: CommunityId,
    host: String,
}

impl TenantContext {
    /// The community the request belongs to.
    pub closed spec fn spec_community(&self) -> CommunityId {
        self.community
    }

    /// The host the request was addressed to.
    pub closed spec fn spec_host(&self) -> Seq<char> {
        self.host@
    }

    /// A context for a request that the server resolved to `community` by `host`.
    pub fn resolved(community: CommunityId, host: &str) -> (ctx: Self)
        ensures
            ctx.spec_community() == community,
            ctx.spec_host() == host@,
    {
        TenantContext { community, host: host.to_string() }
    }

    /// The community the request belongs to.
    pub fn community(&self) -> (community: CommunityId)
        ensures
            community == self.spec_community(),
    {
        self.community
    }

    /// The host the request was addressed to.
    pub fn host(&self) -> (host: &str)
        ensures
            host@ == self.spec_host(),
    {
        self.host.as_str()
    }
}

/// A resolved tenant is of the community, and under the host, that it was
/// resolved to; the community is the one that its UUID names.
pub proof fn tenant_is_what_it_was_resolved_to(
    uuid: Uuid,
    id: CommunityId,
    host: &str,
    ctx: TenantContext,
    community: CommunityId,
    text: String,
)
    requires
        call_ensures(CommunityId::from_uuid, (uuid,), id),
        call_ensures(TenantContext::resolved, (id, host), ctx),
        call_ensures(TenantContext::community, (&ctx,), community),
        call_ensures(CommunityId::to_string, (&community,), text),
    ensures
        community == id,
        community.number == uuid_number(uuid),
        text@ == hyphenated(uuid_number(uuid)),
        ctx.spec_host() == host@,
{
}

} // verus!
