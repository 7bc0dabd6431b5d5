//! The decision core of a fan-token registry: issuing tokens under
//! consecutively numbered denominations, minting against the bank, and
//! rotating the minter, authority and metadata URI of a token, each behind
//! its own authorization check. The host decodes the wire messages, hands
//! the decisions to this core, and performs the returned bank action.

use vstd::prelude::*;

verus! {

/// The decimal digit characters.
pub open spec fn digit_char(d: u64) -> char {
    if d == 0 {
        '0'
    } else if d == 1 {
        '1'
    } else if d == 2 {
        '2'
    } else if d == 3 {
        '3'
    } else if d == 4 {
        '4'
    } else if d == 5 {
        '5'
    } else if d == 6 {
        '6'
    } else if d == 7 {
        '7'
    } else if d == 8 {
        '8'
    } else {
        '9'
    }
}

/// The base-10 representation of an unsigned integer: most significant
/// digit first, no leading zeros.
pub open spec fn u64_digits(n: u64) -> Seq<char>
    decreases n,
{
    if n < 10 {
        seq![digit_char(n)]
    } else {
        u64_digits(n / 10).push(digit_char(n % 10))
    }
}

/// Relies on std's `Display` for `u64`: the base-10 digits of the number,
/// most significant first, without sign or leading zeros.
#[verifier::external_body]
fn u64_to_string(n: u64) -> (r: String)
    ensures
        r@ == u64_digits(n),
{
    format!("{}", n)
}

/// One issued fan token.
#[derive(Debug, PartialEq, Eq)]
pub struct FanToken {
    /// The denomination the registry assigned at issue time.
    pub denom: String,
    /// The token's display name.
    pub name: String,
    /// The token's ticker symbol.
    pub symbol: String,
    /// The maximum supply, as given at issue time.
    pub max_supply: String,
    /// The address allowed to change the token's authority and URI.
    pub authority: String,
    /// The address allowed to mint the token.
    pub minter: String,
    /// The token's metadata URI.
    pub uri: String,
}

/// A decoded fan-token command.
#[derive(Debug, PartialEq, Eq)]
pub enum FanTokenMsg {
    /// Issue a new token under the next numbered denomination.
    Issue {
        name: String,
        symbol: String,
        max_supply: String,
        authority: String,
        minter: String,
        uri: String,
    },
    /// Mint an amount of an issued token to a recipient.
    Mint { denom: String, amount: u128, recipient: String, minter: String },
    /// Hand the minter role to a new address.
    SetMinter { denom: String, old_minter: String, new_minter: String },
    /// Hand the authority role to a new address.
    SetAuthority { denom: String, old_authority: String, new_authority: String },
    /// Replace the token's metadata URI.
    SetUri { denom: String, authority: String, uri: String },
}

/// The answer to a fan-token command, one distinct shape per operation.
#[derive(Debug, PartialEq, Eq)]
pub enum FanTokenResponse {
    /// The token was issued under this denomination.
    Issued { denom: String },
    /// The amount must now be minted by the bank to the recipient.
    Minted { denom: String, amount: u128, recipient: String },
    /// The minter role was handed over.
    MinterSet,
    /// The authority role was handed over.
    AuthoritySet,
    /// The metadata URI was replaced.
    UriSet,
}

/// Why a fan-token command was refused, one distinct shape per operation.
#[derive(Clone, Copy, Debug, PartialEq, Eq)]
pub enum FanTokenError {
    /// The denomination names no issued token.
    UnknownDenom,
    /// Minting was requested by or for an address that is not the minter.
    MintUnauthorized,
    /// The minter handover was not requested by the minter.
    SetMinterUnauthorized,
    /// The minter named as outgoing is not the current minter.
    OldMinterMismatch,
    /// The authority handover was not requested by the authority.
    SetAuthorityUnauthorized,
    /// The authority named as outgoing is not the current authority.
    OldAuthorityMismatch,
    /// The URI change was not requested by the authority.
    SetUriUnauthorized,
}

/// The position of the first token issued under the given denomination,
/// or the length of the registry where there is none.
pub open spec fn token_index(s: Seq<FanToken>, denom: Seq<char>) -> int
    decreases s.len(),
{
    if s.len() == 0 {
        0
    } else if s[0].denom@ == denom {
        0
    } else {
        1 + token_index(s.drop_first(), denom)
    }
}

/// `token_index` is the first position carrying the denomination, and it
/// is the length exactly when no position carries it.
pub proof fn lemma_token_index(s: Seq<FanToken>, denom: Seq<char>)
    ensures
        0 <= token_index(s, denom) <= s.len(),
        token_index(s, denom) < s.len() ==> s[token_index(s, denom)].denom@ == denom,
        forall|j: int| 0 <= j < token_index(s, denom) ==> (#[trigger] s[j]).denom@ != denom,
    decreases s.len(),
{
    if s.len() > 0 && s[0].denom@ != denom {
        lemma_token_index(s.drop_first(), denom);
        let ti = token_index(s, denom);
        let tid = token_index(s.drop_first(), denom);
        assert(forall|j: int| 0 <= j < s.drop_first().len() ==> #[trigger] s.drop_first()[j] == s[
            j + 1
        ]);
        if tid < s.drop_first().len() {
            assert(s[ti] == s.drop_first()[tid]);
        }
        assert forall|j: int| 0 <= j < ti implies (#[trigger] s[j]).denom@ != denom by {
            if j > 0 {
                assert(s[j] == s.drop_first()[j - 1]);
            }
        }
    }
}

/// Whether the registry holds a token under the denomination.
pub open spec fn has_token(s: Seq<FanToken>, denom: Seq<char>) -> bool {
    token_index(s, denom) < s.len()
}

/// The token the registry holds under the denomination.
pub open spec fn token_at(s: Seq<FanToken>, denom: Seq<char>) -> FanToken {
    s[token_index(s, denom)]
}

/// The fan-token registry: the issued tokens and how many were issued.
#[derive(Debug, PartialEq, Eq)]
pub struct StargateKeeper {
    /// The issued tokens, in issue order.
    pub tokens: Vec<FanToken>,
    /// How many tokens have been issued.
    pub denoms_count: u64,
}

impl StargateKeeper {
    /// An empty registry.
    pub fn new() -> (r: StargateKeeper)
        ensures
            r.tokens@.len() == 0,
            r.denoms_count == 0,
    {
        StargateKeeper { tokens: Vec::new(), denoms_count: 0 }
    }

    /// Decide a fan-token command for `sender` and update the registry.
    /// Issuing assigns the next numbered denomination and records the
    /// token. Minting and the three handover operations name an issued
    /// token and are allowed only to the role the token records; each
    /// refusal and each answer has its own shape.
    #[verifier::loop_isolation(false)]
    pub fn execute(&mut self, sender: &String, msg: FanTokenMsg) -> (r: Result<
        FanTokenResponse,
        FanTokenError,
    >)
        requires
            old(self).denoms_count < u64::MAX,
        ensures
            r is Err ==> *final(self) == *old(self),
            msg matches FanTokenMsg::Issue { name, symbol, max_supply, authority, minter, uri }
                ==> {
                &&& final(self).denoms_count == old(self).denoms_count + 1
                &&& (r matches Ok(FanTokenResponse::Issued { denom }) && denom@ == "fantoken"@
                    + u64_digits((old(self).denoms_count + 1) as u64))
                &&& final(self).tokens@.len() == old(self).tokens@.len() + 1
                &&& (final(self).tokens@.last() == (FanToken {
                    denom: final(self).tokens@.last().denom,
                    name,
                    symbol,
                    max_supply,
                    authority,
                    minter,
                    uri,
                }) && final(self).tokens@.last().denom@ == "fantoken"@ + u64_digits(
                    (old(self).denoms_count + 1) as u64,
                ))
                &&& final(self).tokens@.take(old(self).tokens@.len() as int) == old(self).tokens@
            },
            msg matches FanTokenMsg::Mint { denom, amount, recipient, minter } ==> {
                if !has_token(old(self).tokens@, denom@) {
                    r == Err::<FanTokenResponse, FanTokenError>(FanTokenError::UnknownDenom)
                } else {
                    let t = token_at(old(self).tokens@, denom@);
                    if sender@ != t.minter@ || minter@ != t.minter@ {
                        r == Err::<FanTokenResponse, FanTokenError>(FanTokenError::MintUnauthorized)
                    } else {
                        *final(self) == *old(self) && (r matches Ok(FanTokenResponse::Minted {
                            denom: d,
                            amount: a,
                            recipient: rcpt,
                        }) && d@ == denom@ && a == amount && rcpt@ == recipient@)
                    }
                }
            },
            msg matches FanTokenMsg::SetMinter { denom, old_minter, new_minter } ==> {
                if !has_token(old(self).tokens@, denom@) {
                    r == Err::<FanTokenResponse, FanTokenError>(FanTokenError::UnknownDenom)
                } else {
                    let t = token_at(old(self).tokens@, denom@);
                    if sender@ != t.minter@ {
                        r == Err::<FanTokenResponse, FanTokenError>(
                            FanTokenError::SetMinterUnauthorized,
                        )
                    } else if old_minter@ != t.minter@ {
                        r == Err::<FanTokenResponse, FanTokenError>(
                            FanTokenError::OldMinterMismatch,
                        )
                    } else {
                        r == Ok::<FanTokenResponse, FanTokenError>(FanTokenResponse::MinterSet)
                            && final(self).denoms_count == old(self).denoms_count && final(self).tokens@ == old(self).tokens@.update(
                            token_index(old(self).tokens@, denom@),
                            (FanToken { minter: new_minter, ..t }),
                        )
                    }
                }
            },
            msg matches FanTokenMsg::SetAuthority { denom, old_authority, new_authority } ==> {
                if !has_token(old(self).tokens@, denom@) {
                    r == Err::<FanTokenResponse, FanTokenError>(FanTokenError::UnknownDenom)
                } else {
                    let t = token_at(old(self).tokens@, denom@);
                    if sender@ != t.authority@ {
                        r == Err::<FanTokenResponse, FanTokenError>(
                            FanTokenError::SetAuthorityUnauthorized,
                        )
                    } else if old_authority@ != t.authority@ {
                        r == Err::<FanTokenResponse, FanTokenError>(
                            FanTokenError::OldAuthorityMismatch,
                        )
                    } else {
                        r == Ok::<FanTokenResponse, FanTokenError>(FanTokenResponse::AuthoritySet)
                            && final(self).denoms_count == old(self).denoms_count && final(self).tokens@ == old(self).tokens@.update(
                            token_index(old(self).tokens@, denom@),
                            (FanToken { authority: new_authority, ..t }),
                        )
                    }
                }
            },
            msg matches FanTokenMsg::SetUri { denom, authority, uri } ==> {
                if !has_token(old(self).tokens@, denom@) {
                    r == Err::<FanTokenResponse, FanTokenError>(FanTokenError::UnknownDenom)
                } else {
                    let t = token_at(old(self).tokens@, denom@);
                    if sender@ != t.authority@ || authority@ != t.authority@ {
                        r == Err::<FanTokenResponse, FanTokenError>(
                            FanTokenError::SetUriUnauthorized,
                        )
                    } else {
                        r == Ok::<FanTokenResponse, FanTokenError>(FanTokenResponse::UriSet)
                            && final(self).denoms_count == old(self).denoms_count && final(self).tokens@ == old(self).tokens@.update(
                            token_index(old(self).tokens@, denom@),
                            (FanToken { uri, ..t }),
                        )
                    }
                }
            },
    {
        match msg {
            FanTokenMsg::Issue { name, symbol, max_supply, authority, minter, uri } => {
                let number = self.denoms_count + 1;
                let digits = u64_to_string(number);
                let denom = String::from_str("fantoken").concat(digits.as_str());
                let ghost pre_tokens = self.tokens@;
                self.tokens.push(FanToken {
                    denom,
                    name,
                    symbol,
                    max_supply,
                    authority,
                    minter,
                    uri,
                });
                self.denoms_count = number;
                proof {
                    assert(self.tokens@.take(pre_tokens.len() as int) =~= pre_tokens);
                }
                let issued = self.tokens.len() - 1;
                Ok(FanTokenResponse::Issued { denom: self.tokens[issued].denom.clone() })
            },
            FanTokenMsg::Mint { denom, amount, recipient, minter } => {
                let i = match self.find_token(&denom) {
                    Some(i) => i,
                    None => {
                        return Err(FanTokenError::UnknownDenom);
                    },
                };
                if !sender.eq(&self.tokens[i].minter) || !minter.eq(&self.tokens[i].minter) {
                    return Err(FanTokenError::MintUnauthorized);
                }
                Ok(FanTokenResponse::Minted { denom, amount, recipient })
            },
            FanTokenMsg::SetMinter { denom, old_minter, new_minter } => {
                let i = match self.find_token(&denom) {
                    Some(i) => i,
                    None => {
                        return Err(FanTokenError::UnknownDenom);
                    },
                };
                if !sender.eq(&self.tokens[i].minter) {
                    return Err(FanTokenError::SetMinterUnauthorized);
                }
                if !old_minter.eq(&self.tokens[i].minter) {
                    return Err(FanTokenError::OldMinterMismatch);
                }
                let t = self.tokens.remove(i);
                self.tokens.insert(i, FanToken { minter: new_minter, ..t });
                proof {
                    assert(self.tokens@ =~= old(self).tokens@.update(
                        i as int,
                        self.tokens@[i as int],
                    ));
                }
                Ok(FanTokenResponse::MinterSet)
            },
            FanTokenMsg::SetAuthority { denom, old_authority, new_authority } => {
                let i = match self.find_token(&denom) {
                    Some(i) => i,
                    None => {
                        return Err(FanTokenError::UnknownDenom);
                    },
                };
                if !sender.eq(&self.tokens[i].authority) {
                    return Err(FanTokenError::SetAuthorityUnauthorized);
                }
                if !old_authority.eq(&self.tokens[i].authority) {
                    return Err(FanTokenError::OldAuthorityMismatch);
                }
                let t = self.tokens.remove(i);
                self.tokens.insert(i, FanToken { authority: new_authority, ..t });
                proof {
                    assert(self.tokens@ =~= old(self).tokens@.update(
                        i as int,
                        self.tokens@[i as int],
                    ));
                }
                Ok(FanTokenResponse::AuthoritySet)
            },
            FanTokenMsg::SetUri { denom, authority, uri } => {
                let i = match self.find_token(&denom) {
                    Some(i) => i,
                    None => {
                        return Err(FanTokenError::UnknownDenom);
                    },
                };
                if !sender.eq(&self.tokens[i].authority) || !authority.eq(
                    &self.tokens[i].authority,
                ) {
                    return Err(FanTokenError::SetUriUnauthorized);
                }
                let t = self.tokens.remove(i);
                self.tokens.insert(i, FanToken { uri, ..t });
                proof {
                    assert(self.tokens@ =~= old(self).tokens@.update(
                        i as int,
                        self.tokens@[i as int],
                    ));
                }
                Ok(FanTokenResponse::UriSet)
            },
        }
    }

    /// The position of the first token issued under the denomination.
    #[verifier::loop_isolation(false)]
    fn find_token(&self, denom: &String) -> (r: Option<usize>)
        ensures
            r matches Some(i) ==> i == token_index(self.tokens@, denom@) && i
                < self.tokens@.len(),
            r is None ==> !has_token(self.tokens@, denom@),
    {
        proof {
            lemma_token_index(self.tokens@, denom@);
        }
        let mut i: usize = 0;
        while i < self.tokens.len()
            invariant
                0 <= i <= self.tokens@.len(),
                forall|j: int| 0 <= j < i ==> (#[trigger] self.tokens@[j]).denom@ != denom@,
            decreases self.tokens@.len() - i,
        {
            if self.tokens[i].denom.eq(denom) {
                proof {
                    lemma_token_index_first(self.tokens@, denom@, i as int);
                }
                return Some(i);
            }
            i = i + 1;
        }
        proof {
            if has_token(self.tokens@, denom@) {
                assert(self.tokens@[token_index(self.tokens@, denom@)].denom@ == denom@);
            }
        }
        None
    }

    /// Answer a raw passthrough query: the data echoes back unchanged.
    pub fn query(&self, data: Vec<u8>) -> (r: Vec<u8>)
        ensures
            r@ == data@,
    {
        data
    }
}

/// A position that carries the denomination, with none before it carrying
/// it, is exactly `token_index`.
pub proof fn lemma_token_index_first(s: Seq<FanToken>, denom: Seq<char>, i: int)
    requires
        0 <= i < s.len(),
        s[i].denom@ == denom,
        forall|j: int| 0 <= j < i ==> (#[trigger] s[j]).denom@ != denom,
    ensures
        token_index(s, denom) == i,
    decreases s.len(),
{
    if s[0].denom@ != denom {
        assert(forall|j: int| 0 <= j < s.drop_first().len() ==> #[trigger] s.drop_first()[j] == s[
            j + 1
        ]);
        lemma_token_index_first(s.drop_first(), denom, i - 1);
    }
}

} // verus!
