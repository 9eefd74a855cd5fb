//! A node that hands out identifiers drawn at random.
use vstd::prelude::*;
use crate::envelope::Message;
use crate::node::Handler;

verus! {

/// The unique-id protocol's payloads.
#[derive(Debug, Clone)]
pub enum Generate {
    GenerateOk { id: String },
    Generate,
}

/// The character for a decimal digit.
pub open spec fn digit_char(d: nat) -> char {
    if d == 0 { '0' }
    else if d == 1 { '1' }
    else if d == 2 { '2' }
    else if d == 3 { '3' }
    else if d == 4 { '4' }
    else if d == 5 { '5' }
    else if d == 6 { '6' }
    else if d == 7 { '7' }
    else if d == 8 { '8' }
    else { '9' }
}

/// `n` written in decimal, without sign or leading zeros.
pub open spec fn decimal(n: nat) -> Seq<char>
    decreases n,
{
    if n < 10 {
        seq![digit_char(n)]
    } else {
        decimal(n / 10).push(digit_char(n % 10))
    }
}

/// Relies on `u64::to_string` (the standard `Display` of an integer): the
/// number's decimal digits, no sign, no leading zeros.
#[verifier::external_body]
fn decimal_text(n: u64) -> (r: String)
    ensures
        r@ == decimal(n as nat),
{
    n.to_string()
}

/// Relies on rand's `OsRng` (rand_core's `RngCore::try_fill_bytes`, which
/// asks the operating system through `getrandom`): eight bytes of which
/// nothing is promised, or `None` where the system generator reports an
/// error. It returns that error rather than panicking.
#[verifier::external_body]
fn os_random_bytes() -> (r: Option<[u8; 8]>) {
    let mut buf = [0u8; 8];
    match rand::RngCore::try_fill_bytes(&mut rand::rngs::OsRng, &mut buf) {
        Ok(()) => Some(buf),
        Err(_) => None,
    }
}

/// `256` to the power `n`: one more than the largest value of `n` bytes.
pub open spec fn byte_bound(n: nat) -> nat
    decreases n,
{
    if n == 0 {
        1
    } else {
        256 * byte_bound((n - 1) as nat)
    }
}

/// The number that the bytes `s` spell, most significant first.
pub open spec fn be_value(s: Seq<u8>) -> nat
    decreases s.len(),
{
    if s.len() == 0 {
        0
    } else {
        be_value(s.drop_last()) * 256 + s.last() as nat
    }
}

proof fn lemma_byte_bound_grows(i: nat, j: nat)
    requires
        i <= j,
    ensures
        byte_bound(i) <= byte_bound(j),
    decreases j - i,
{
    if i < j {
        lemma_byte_bound_grows(i, (j - 1) as nat);
    }
}

/// The identifier that eight random bytes spell, most significant first.
pub fn id_from_bytes(b: [u8; 8]) -> (r: u64)
    ensures
        r == be_value(b@),
{
    let mut acc: u64 = 0;
    let mut i: usize = 0;
    proof {
        reveal_with_fuel(byte_bound, 9);
    }
    assert(byte_bound(8) == 0x1_0000_0000_0000_0000);
    while i < 8
        invariant
            i <= 8,
            b@.len() == 8,
            acc == be_value(b@.subrange(0, i as int)),
            acc < byte_bound(i as nat),
            byte_bound(8) == 0x1_0000_0000_0000_0000,
        decreases 8 - i,
    {
        let ghost bound = byte_bound(i as nat);
        proof {
            lemma_byte_bound_grows((i + 1) as nat, 8);
            let a = acc as int;
            let d = b@[i as int] as int;
            assert(a * 256 + d < bound * 256) by (nonlinear_arith)
                requires
                    a < bound,
                    0 <= d < 256,
            ;
            assert(b@.subrange(0, i as int + 1).drop_last() =~= b@.subrange(0, i as int));
        }
        acc = acc * 256 + b[i] as u64;
        i = i + 1;
    }
    assert(b@.subrange(0, 8) =~= b@);
    acc
}

/// The `generate_ok` reply for the identifier `n`.
pub fn generate_ok(n: u64) -> (r: Generate)
    ensures
        r matches Generate::GenerateOk { id } && id@ == decimal(n as nat),
{
    Generate::GenerateOk { id: decimal_text(n) }
}

/// Answers `generate` with a fresh random identifier. It refuses the request
/// when the operating system's generator fails.
#[derive(Debug, Clone, Copy)]
pub struct GenerateHandler;

impl Handler for GenerateHandler {
    type Payload = Generate;

    open spec fn accepts(&self, request: Message<Generate>) -> bool {
        request.body.payload is Generate
    }

    open spec fn always_answers(&self) -> bool {
        false
    }

    open spec fn answers(&self, request: Message<Generate>, reply: Generate) -> bool {
        exists|n: u64| reply matches Generate::GenerateOk { id } && id@ == #[trigger] decimal(n as nat)
    }

    fn handle(&self, request: &Message<Generate>) -> (r: Option<Generate>) {
        match &request.body.payload {
            Generate::Generate => match os_random_bytes() {
                Some(bytes) => Some(generate_ok(id_from_bytes(bytes))),
                None => None,
            },
            Generate::GenerateOk { .. } => None,
        }
    }
}

} // verus!
