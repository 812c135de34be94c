//! The domain model: validated addresses, accounts and contracts.

use vstd::prelude::*;

verus! {

/// Failures of the domain model: invalid address strings and attempts to
/// wrap a code-less account as a contract. Each variant carries the
/// offending input.
#[derive(Debug)]
pub enum Errors {
    /// The string does not start with the `0x` prefix. Carries the string.
    AddressNotPrefixed(String),
    /// The string starts with `0x` but is not exactly 42 characters long.
    /// Carries the string and its actual length.
    AddressIncorrectLength(String, usize),
    /// The bytecode handed to `Contract::new` was empty. Carries the
    /// account's rendered description.
    NotAContract(String),
}

/// A string starts with the two characters `0x`.
pub open spec fn has_hex_prefix(s: Seq<char>) -> bool {
    s.len() >= 2 && s[0] == '0' && s[1] == 'x'
}

/// A well-formed address string: `0x` followed by 40 more characters.
/// Only the prefix and the total length are checked; the remaining
/// characters are not held to any character set.
pub open spec fn valid_address(s: Seq<char>) -> bool {
    has_hex_prefix(s) && s.len() == 42
}

/// An address is a 42-character `0x`-prefixed identifier for an account.
/// The only way to obtain one is `try_from`, so every value of this type
/// satisfies `valid_address`.
pub struct Address {
    value: String,
}

impl View for Address {
    type V = Seq<char>;

    closed spec fn view(&self) -> Seq<char> {
        self.value@
    }
}

impl Address {
    /// Every address that can be constructed is well formed.
    #[verifier::type_invariant]
    pub closed spec fn wf(&self) -> bool {
        valid_address(self.value@)
    }

    /// Validates a string as an address. The prefix is checked first, then
    /// the length; the first failure wins and carries the original string.
    pub fn try_from(addr: String) -> (r: Result<Address, Errors>)
        ensures
            match r {
                Ok(a) => valid_address(addr@) && a@ == addr@ && a.wf(),
                Err(Errors::AddressNotPrefixed(s)) => s@ == addr@ && !has_hex_prefix(addr@),
                Err(Errors::AddressIncorrectLength(s, n)) => s@ == addr@ && has_hex_prefix(addr@)
                    && addr@.len() != 42 && n == addr@.len(),
                Err(Errors::NotAContract(_)) => false,
            },
    {
        let n = addr.as_str().unicode_len();
        if n < 2 || addr.as_str().get_char(0) != '0' || addr.as_str().get_char(1) != 'x' {
            return Err(Errors::AddressNotPrefixed(addr));
        }
        if n != 42 {
            return Err(Errors::AddressIncorrectLength(addr, n));
        }
        Ok(Address { value: addr })
    }

    /// Validates a borrowed string as an address; as `try_from`, on an
    /// owned copy.
    pub fn try_from_str(addr: &str) -> (r: Result<Address, Errors>)
        ensures
            match r {
                Ok(a) => valid_address(addr@) && a@ == addr@ && a.wf(),
                Err(Errors::AddressNotPrefixed(s)) => s@ == addr@ && !has_hex_prefix(addr@),
                Err(Errors::AddressIncorrectLength(s, n)) => s@ == addr@ && has_hex_prefix(addr@)
                    && addr@.len() != 42 && n == addr@.len(),
                Err(Errors::NotAContract(_)) => false,
            },
    {
        Address::try_from(addr.to_owned())
    }

    /// Renders the address back as the exact string it was built from.
    pub fn as_str(&self) -> (s: &str)
        ensures
            s@ == self@,
    {
        self.value.as_str()
    }
}

/// The decimal digit `d` as a character, for `d < 10`.
pub open spec fn digit_char(d: nat) -> char {
    if d == 0 {
        '0'
    } else if d == 1 {
        '1'
    } else if d == 2 {
        '2'
    } else if d == 3 {
        '3'
    } else if d == 4 {
        '4'
    } else if d == 5 {
        '5'
    } else if d == 6 {
        '6'
    } else if d == 7 {
        '7'
    } else if d == 8 {
        '8'
    } else {
        '9'
    }
}

/// The usual decimal rendering of `n`: no sign, no leading zeros, and a
/// single `0` for zero itself.
pub open spec fn spec_dec(n: nat) -> Seq<char>
    decreases n,
{
    if n < 10 {
        seq![digit_char(n)]
    } else {
        spec_dec(n / 10) + seq![digit_char(n % 10)]
    }
}

/// The one-character string for the decimal digit `d`.
fn digit_str(d: usize) -> (s: &'static str)
    requires
        d < 10,
    ensures
        s@ == seq![digit_char(d as nat)],
{
    if d == 0 {
        proof {
            reveal_strlit("0");
            assert("0"@ =~= seq![digit_char(0)]);
        }
        "0"
    } else if d == 1 {
        proof {
            reveal_strlit("1");
            assert("1"@ =~= seq![digit_char(1)]);
        }
        "1"
    } else if d == 2 {
        proof {
            reveal_strlit("2");
            assert("2"@ =~= seq![digit_char(2)]);
        }
        "2"
    } else if d == 3 {
        proof {
            reveal_strlit("3");
            assert("3"@ =~= seq![digit_char(3)]);
        }
        "3"
    } else if d == 4 {
        proof {
            reveal_strlit("4");
            assert("4"@ =~= seq![digit_char(4)]);
        }
        "4"
    } else if d == 5 {
        proof {
            reveal_strlit("5");
            assert("5"@ =~= seq![digit_char(5)]);
        }
        "5"
    } else if d == 6 {
        proof {
            reveal_strlit("6");
            assert("6"@ =~= seq![digit_char(6)]);
        }
        "6"
    } else if d == 7 {
        proof {
            reveal_strlit("7");
            assert("7"@ =~= seq![digit_char(7)]);
        }
        "7"
    } else if d == 8 {
        proof {
            reveal_strlit("8");
            assert("8"@ =~= seq![digit_char(8)]);
        }
        "8"
    } else {
        proof {
            reveal_strlit("9");
            assert("9"@ =~= seq![digit_char(9)]);
        }
        "9"
    }
}

/// Renders `n` in decimal.
pub fn dec_string(n: usize) -> (s: String)
    ensures
        s@ == spec_dec(n as nat),
    decreases n,
{
    if n < 10 {
        digit_str(n).to_owned()
    } else {
        let mut s = dec_string(n / 10);
        s.append(digit_str(n % 10));
        proof {
            assert(s@ =~= spec_dec(n as nat));
        }
        s
    }
}

/// Law: building an address from a string keeps the string, and rendering
/// gives it back unchanged, so the round trip through `try_from` and
/// `as_str` is the identity on accepted strings.
pub proof fn lemma_address_round_trip(s: Seq<char>, a: Address, rendered: Seq<char>)
    requires
        a@ == s,  // what a successful `try_from` ensures
        rendered == a@,  // what `as_str` ensures
    ensures
        rendered == s,
{
}

/// The state of an on-chain account: its address, transaction counter,
/// balance in the smallest unit, and deployed code. An empty code sequence
/// marks an externally owned account. Any nonce, balance and code are
/// accepted; only the address is validated, by its own type.
pub struct Account {
    pub address: Address,
    pub nonce: usize,
    pub balance: usize,
    pub code: Vec<u8>,
}

/// The rendered description of an account: whether it is externally owned
/// or a contract, its address, and its balance scaled down by `10^8`
/// (a fixed display constant, not derived from chain decimals).
pub open spec fn spec_account_display(a: Account) -> Seq<char> {
    (if a.code@.len() == 0 {
        "EOA"@
    } else {
        "Contract"@
    }) + " @ "@ + a.address@ + " ("@ + spec_dec((a.balance / 100000000) as nat) + " ETH)"@
}

impl Account {
    /// Bundles caller-supplied state into an account; nothing is
    /// validated here.
    pub fn new(address: Address, nonce: usize, balance: usize, code: Vec<u8>) -> (r: Account)
        ensures
            r.address == address,
            r.nonce == nonce,
            r.balance == balance,
            r.code == code,
    {
        Account { address, nonce, balance, code }
    }

    /// True exactly when the account carries no code, that is, when it is
    /// an externally owned account rather than a contract.
    pub fn is_eoa(&self) -> (r: bool)
        ensures
            r == (self.code@.len() == 0),
    {
        self.code.len() == 0
    }

    /// Renders the account as `<EOA|Contract> @ <address> (<balance/10^8> ETH)`.
    pub fn display_string(&self) -> (s: String)
        ensures
            s@ == spec_account_display(*self),
    {
        let mut s = (if self.is_eoa() {
            "EOA"
        } else {
            "Contract"
        }).to_owned();
        s.append(" @ ");
        s.append(self.address.as_str());
        s.append(" (");
        let bal = dec_string(self.balance / 100000000);
        s.append(bal.as_str());
        s.append(" ETH)");
        proof {
            assert(s@ =~= spec_account_display(*self));
        }
        s
    }
}

/// A deployed contract's metadata: the account it extends, optional name,
/// interface description and source text, and its (non-empty) bytecode.
pub struct Contract {
    pub account: Account,
    pub name: Option<String>,
    pub abi: Option<String>,
    pub source: Option<String>,
    pub bytecode: String,
}

impl Contract {
    /// Wraps an account as a contract. Fails exactly when `bytecode` is
    /// empty, whatever the account's own code field holds; the error
    /// carries the account's rendered description.
    pub fn new(
        account: Account,
        bytecode: String,
        source: Option<String>,
        abi: Option<String>,
        name: Option<String>,
    ) -> (r: Result<Contract, Errors>)
        ensures
            match r {
                Ok(c) => bytecode@.len() != 0 && c.account == account && c.bytecode == bytecode
                    && c.source == source && c.abi == abi && c.name == name,
                Err(Errors::NotAContract(d)) => bytecode@.len() == 0 && d@ == spec_account_display(
                    account,
                ),
                Err(_) => false,
            },
    {
        if bytecode.as_str().is_empty() {
            return Err(Errors::NotAContract(account.display_string()));
        }
        Ok(Contract { account, name, abi, source, bytecode })
    }
}

} // verus!
