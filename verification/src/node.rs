//! The node: assembly from a resolved configuration, and execution of
//! decoded requests against the chain model. Blocks, the pool and the
//! miner live here; request decoding and response rendering come from the
//! neighbouring modules.

use vstd::prelude::*;
use vstd::string::StringExecFns;
use crate::config::NodeConfig;
use crate::digest::{keccak256_of_str, keccak_of};
use crate::mining::{chosen_mode, mode_wired, select_mining_mode, Miner, MiningMode};
use crate::pool::Pool;
use crate::request::{decoded_of, parse_call};
use crate::response::{
    error_string, error_text, invalid_params_text, method_not_found_text, parse_error_text,
    success_string, success_text,
};
use crate::text::{dec_list_of, dec_list_string, dec_of, dec_string, hex_of_bytes, hex_string};

verus! {

/// Chain identifier of the development node.
pub const CHAIN_ID: u64 = 31337;

/// One produced block: the transactions it includes, in inclusion order.
pub struct Block {
    pub transactions: Vec<String>,
}

/// The assembled node: pool, miner and produced blocks, together with the
/// signer accounts the configuration supplied.
pub struct Node {
    pool: Pool,
    miner: Miner,
    blocks: Vec<Block>,
    signer_accounts: Vec<u64>,
}

/// The blocks that instant mining produces from the ready transactions
/// `txs`: full batches of `m`, in order, the last batch possibly shorter.
/// With `m == 0` nothing is ever produced.
pub open spec fn mined_chunks(txs: Seq<Seq<char>>, m: usize) -> Seq<Seq<Seq<char>>>
    decreases txs.len(),
{
    if m == 0 || txs.len() == 0 {
        Seq::<Seq<Seq<char>>>::empty()
    } else if txs.len() <= m {
        seq![txs]
    } else {
        seq![txs.take(m as int)] + mined_chunks(txs.skip(m as int), m)
    }
}

/// One mining step: with at least one ready transaction, the first batch
/// comes off the front and the rest is chunked the same way.
proof fn lemma_mined_chunks_step(txs: Seq<Seq<char>>, m: usize)
    requires
        m >= 1,
        txs.len() > 0,
    ensures
        mined_chunks(txs, m) == seq![
            txs.take(if txs.len() <= m { txs.len() as int } else { m as int }),
        ] + mined_chunks(txs.skip(if txs.len() <= m { txs.len() as int } else { m as int }), m),
{
    if txs.len() <= m {
        assert(txs.take(txs.len() as int) =~= txs);
        assert(txs.skip(txs.len() as int) =~= Seq::<Seq<char>>::empty());
        assert(mined_chunks(txs.skip(txs.len() as int), m) =~= Seq::<Seq<Seq<char>>>::empty());
        assert(mined_chunks(txs, m) =~= seq![txs.take(txs.len() as int)] + mined_chunks(
            txs.skip(txs.len() as int),
            m,
        ));
    }
}

/// Instant mining neither loses nor invents transactions: the produced
/// blocks, read in order, hold exactly the ready transactions in their
/// queue order.
pub proof fn lemma_mined_chunks_complete(txs: Seq<Seq<char>>, m: usize)
    requires
        m >= 1,
    ensures
        mined_chunks(txs, m).flatten() == txs,
    decreases txs.len(),
{
    if txs.len() == 0 {
        assert(mined_chunks(txs, m).flatten() =~= txs);
    } else {
        let k: int = if txs.len() <= m {
            txs.len() as int
        } else {
            m as int
        };
        lemma_mined_chunks_step(txs, m);
        lemma_mined_chunks_complete(txs.skip(k), m);
        let chunks = mined_chunks(txs, m);
        assert(chunks.first() == txs.take(k));
        assert(chunks.drop_first() =~= mined_chunks(txs.skip(k), m));
        assert(chunks.flatten() == txs.take(k) + mined_chunks(txs.skip(k), m).flatten());
        assert(txs.take(k) + txs.skip(k) =~= txs);
    }
}

/// Every ready transaction lands in one of the chunks that instant mining
/// produces, as long as blocks may hold at least one transaction.
pub proof fn lemma_instant_inclusion(txs: Seq<Seq<char>>, m: usize, tx: Seq<char>)
    requires
        m >= 1,
        txs.contains(tx),
    ensures
        exists|i: int|
            0 <= i < mined_chunks(txs, m).len() && #[trigger] mined_chunks(txs, m)[i].contains(tx),
    decreases txs.len(),
{
    let chunks = mined_chunks(txs, m);
    if txs.len() <= m {
        assert(chunks[0] == txs);
        assert(chunks[0].contains(tx));
    } else {
        let k = choose|k: int| 0 <= k < txs.len() && txs[k] == tx;
        if k < m {
            assert(txs.take(m as int)[k] == tx);
            assert(chunks[0].contains(tx));
        } else {
            assert(txs.skip(m as int)[k - m] == tx);
            assert(txs.skip(m as int).contains(tx));
            lemma_instant_inclusion(txs.skip(m as int), m, tx);
            let j = choose|j: int|
                0 <= j < mined_chunks(txs.skip(m as int), m).len() && #[trigger] mined_chunks(
                    txs.skip(m as int),
                    m,
                )[j].contains(tx);
            assert(chunks[j + 1].contains(tx));
        }
    }
}

/// The method tags the node knows.
pub open spec fn known_method(m: Seq<char>) -> bool {
    ||| m == "eth_blockNumber"@
    ||| m == "eth_chainId"@
    ||| m == "eth_accounts"@
    ||| m == "eth_sendRawTransaction"@
}

/// The four method tags differ pairwise (their lengths already do).
proof fn lemma_method_tags_distinct()
    ensures
        "eth_blockNumber"@ != "eth_chainId"@,
        "eth_blockNumber"@ != "eth_accounts"@,
        "eth_blockNumber"@ != "eth_sendRawTransaction"@,
        "eth_chainId"@ != "eth_accounts"@,
        "eth_chainId"@ != "eth_sendRawTransaction"@,
        "eth_accounts"@ != "eth_sendRawTransaction"@,
{
    reveal_strlit("eth_blockNumber");
    reveal_strlit("eth_chainId");
    reveal_strlit("eth_accounts");
    reveal_strlit("eth_sendRawTransaction");
    assert("eth_blockNumber"@.len() == 15);
    assert("eth_chainId"@.len() == 11);
    assert("eth_accounts"@.len() == 12);
    assert("eth_sendRawTransaction"@.len() == 22);
}

/// A raw-transaction submission is usable when it carries at least one
/// parameter and the first one is a string.
pub open spec fn sendraw_params_ok(params: Seq<Option<Seq<char>>>) -> bool {
    params.len() >= 1 && params[0] is Some
}

/// The rendered result of a transaction submission: the transaction's
/// Keccak-256 identifier, quoted, in hexadecimal.
pub open spec fn tx_hash_body(tx: Seq<char>) -> Seq<char> {
    "\"0x"@ + hex_of_bytes(keccak_of(tx)) + "\""@
}

/// What submitting one raw transaction does, as a relation between the
/// node before (`pre`) and after (`post`), the parameters, and the
/// response `r`. Unusable parameters are rejected and leave the node
/// untouched. Otherwise the transaction is queued; under instant mining
/// the ready transactions are at once turned into blocks — so a
/// transaction submitted after the listener was installed lands in one of
/// the new blocks — and under the other modes block production is left to
/// the timer or to out-of-band requests.
pub open spec fn sendraw_outcome(
    pre: Node,
    post: Node,
    params: Seq<Option<Seq<char>>>,
    r: Seq<char>,
) -> bool {
    if !sendraw_params_ok(params) {
        post == pre && r == invalid_params_text()
    } else {
        let tx = params[0]->0;
        &&& r == success_text(tx_hash_body(tx))
        &&& match pre.mode_spec() {
            MiningMode::Instant { max_transactions: m, listener: _ } => {
                &&& post.blocks_view() == pre.blocks_view() + mined_chunks(
                    pre.pool_view().push(tx),
                    m,
                )
                &&& post.pool_view() == if m == 0 {
                    pre.pool_view().push(tx)
                } else {
                    Seq::<Seq<char>>::empty()
                }
                &&& m >= 1 ==> exists|i: int|
                    pre.block_number() <= i < post.block_number()
                        && #[trigger] post.blocks_view()[i].contains(tx)
            },
            _ => {
                &&& post.pool_view() == pre.pool_view().push(tx)
                &&& post.blocks_view() == pre.blocks_view()
            },
        }
    }
}

/// What one decoded call does: the response it earns and how it moves the
/// node from `pre` to `post`. An unknown method is answered with a
/// method-not-found error and changes nothing; the known read-only methods
/// report the block number, the chain identifier and the signer accounts;
/// a raw-transaction submission behaves as `sendraw_outcome` says.
pub open spec fn call_outcome(
    pre: Node,
    post: Node,
    method: Seq<char>,
    params: Seq<Option<Seq<char>>>,
    r: Seq<char>,
) -> bool {
    &&& !known_method(method) ==> post == pre && r == method_not_found_text()
    &&& method == "eth_blockNumber"@ ==> post == pre && r == success_text(
        dec_of(pre.block_number()),
    )
    &&& method == "eth_chainId"@ ==> post == pre && r == success_text(dec_of(CHAIN_ID as nat))
    &&& method == "eth_accounts"@ ==> post == pre && r == success_text(
        seq!['['] + dec_list_of(pre.signers_view()) + seq![']'],
    )
    &&& method == "eth_sendRawTransaction"@ ==> sendraw_outcome(pre, post, params, r)
}

/// Every answer a call can earn is one structured response: a success
/// around a result, or an error around a code and a message — never
/// anything else.
pub proof fn lemma_outcome_structured(
    pre: Node,
    post: Node,
    method: Seq<char>,
    params: Seq<Option<Seq<char>>>,
    r: Seq<char>,
)
    requires
        call_outcome(pre, post, method, params, r),
    ensures
        (exists|body: Seq<char>| r == success_text(body)) || (exists|code: Seq<char>, msg: Seq<char>|
            r == error_text(code, msg)),
{
    if !known_method(method) {
        assert(r == error_text("-32601"@, "method not found"@));
    } else if method == "eth_blockNumber"@ {
        assert(r == success_text(dec_of(pre.block_number())));
    } else if method == "eth_chainId"@ {
        assert(r == success_text(dec_of(CHAIN_ID as nat)));
    } else if method == "eth_accounts"@ {
        assert(r == success_text(seq!['['] + dec_list_of(pre.signers_view()) + seq![']']));
    } else {
        if !sendraw_params_ok(params) {
            assert(r == error_text("-32602"@, "invalid params"@));
        } else {
            assert(r == success_text(tx_hash_body(params[0]->0)));
        }
    }
}

impl Node {
    /// The transactions of each produced block, in production order.
    pub closed spec fn blocks_view(self) -> Seq<Seq<Seq<char>>> {
        self.blocks@.map(|i: int, b: Block| b.transactions@.map(|j: int, t: String| t@))
    }

    /// The current block number: blocks produced so far, the genesis state
    /// counting as zero.
    pub open spec fn block_number(self) -> nat {
        self.blocks_view().len()
    }

    /// The pending raw transactions, oldest first.
    pub closed spec fn pool_view(self) -> Seq<Seq<char>> {
        self.pool.pending_view().map(|i: int, t: String| t@)
    }

    /// The block-production mode the miner was built with.
    pub closed spec fn mode_spec(self) -> MiningMode {
        self.miner.mode
    }

    /// The configured signer accounts, in configuration order.
    pub closed spec fn signers_view(self) -> Seq<u64> {
        self.signer_accounts@
    }

    /// A node is well formed when its miner, if it reacts to pool
    /// insertions, reacts through a subscription installed on its own pool.
    pub closed spec fn wf(self) -> bool {
        mode_wired(self.miner.mode, self.pool)
    }

    /// Assemble a node from a resolved configuration: empty chain, empty
    /// pool, the mining mode the configuration selects (with the ready
    /// listener installed before anything can be submitted), and the
    /// configured signer set.
    pub fn assemble(config: NodeConfig) -> (n: Node)
        ensures
            n.wf(),
            n.block_number() == 0,
            n.pool_view() == Seq::<Seq<char>>::empty(),
            n.mode_spec() == chosen_mode(
                config.block_time,
                config.no_mining,
                config.max_transactions,
                0,
            ),
            n.signers_view() == config.signer_accounts@,
    {
        let mut pool = Pool::new();
        let mode = select_mining_mode(
            config.block_time,
            config.no_mining,
            config.max_transactions,
            &mut pool,
        );
        let miner = Miner::new(mode);
        let n = Node { pool, miner, blocks: Vec::new(), signer_accounts: config.signer_accounts };
        proof {
            assert(n.blocks_view() =~= Seq::<Seq<Seq<char>>>::empty());
            assert(n.pool_view() =~= Seq::<Seq<char>>::empty());
        }
        n
    }

    /// Produce blocks from the ready transactions until none is left,
    /// at most `m` transactions to a block. With `m == 0` the miner takes
    /// nothing and the pool keeps its content.
    fn instant_mine(&mut self, m: usize)
        ensures
            final(self).blocks_view() == old(self).blocks_view() + mined_chunks(
                old(self).pool_view(),
                m,
            ),
            final(self).pool_view() == if m == 0 {
                old(self).pool_view()
            } else {
                Seq::<Seq<char>>::empty()
            },
            final(self).mode_spec() == old(self).mode_spec(),
            final(self).signers_view() == old(self).signers_view(),
            final(self).pool.listener_count() == old(self).pool.listener_count(),
    {
        if m == 0 {
            proof {
                assert(final(self).blocks_view() =~= old(self).blocks_view() + mined_chunks(
                    old(self).pool_view(),
                    m,
                ));
            }
            return ;
        }
        while self.pool.pending_len() > 0
            invariant
                m >= 1,
                self.blocks_view() + mined_chunks(self.pool_view(), m) =~= old(self).blocks_view()
                    + mined_chunks(old(self).pool_view(), m),
                self.mode_spec() == old(self).mode_spec(),
                self.signers_view() == old(self).signers_view(),
                self.pool.listener_count() == old(self).pool.listener_count(),
            decreases self.pool_view().len(),
        {
            let ghost pre_pool: Seq<Seq<char>> = self.pool_view();
            let ghost pre_blocks: Seq<Seq<Seq<char>>> = self.blocks_view();
            let ghost k: int = if pre_pool.len() <= m {
                pre_pool.len() as int
            } else {
                m as int
            };
            let batch = self.pool.take_up_to(m);
            self.blocks.push(Block { transactions: batch });
            proof {
                lemma_mined_chunks_step(pre_pool, m);
                assert(self.pool_view() =~= pre_pool.skip(k));
                assert(batch@.map(|j: int, t: String| t@) =~= pre_pool.take(k));
                assert(self.blocks_view() =~= pre_blocks.push(pre_pool.take(k)));
                assert(self.blocks_view() + mined_chunks(self.pool_view(), m) =~= pre_blocks
                    + mined_chunks(pre_pool, m));
            }
        }
        proof {
            assert(self.pool_view() =~= Seq::<Seq<char>>::empty());
            assert(mined_chunks(self.pool_view(), m) =~= Seq::<Seq<Seq<char>>>::empty());
            assert(self.blocks_view() =~= old(self).blocks_view() + mined_chunks(
                old(self).pool_view(),
                m,
            ));
        }
    }

    /// Blocks produced so far.
    pub fn block_count(&self) -> (n: usize)
        ensures
            n == self.block_number(),
    {
        self.blocks.len()
    }

    /// The transactions of block `i`, if that block exists.
    pub fn block_transactions(&self, i: usize) -> (r: Option<&Vec<String>>)
        ensures
            r is Some <==> i < self.block_number(),
            r matches Some(b) ==> b@.map(|j: int, t: String| t@) == self.blocks_view()[i as int],
    {
        if i < self.blocks.len() {
            Some(&self.blocks[i].transactions)
        } else {
            None
        }
    }

    /// Queue one raw transaction and, under instant mining, produce the
    /// blocks it makes ready. Returns the rendered submission response.
    fn submit_transaction(&mut self, tx: &String) -> (r: String)
        requires
            old(self).wf(),
        ensures
            final(self).wf(),
            final(self).mode_spec() == old(self).mode_spec(),
            final(self).signers_view() == old(self).signers_view(),
            final(self).block_number() >= old(self).block_number(),
            sendraw_outcome(
                *old(self),
                *final(self),
                seq![Some(tx@)],
                r@,
            ),
    {
        let digest = keccak256_of_str(tx.as_str());
        let hex = hex_string(&digest);
        let mut body = String::new();
        body.append("\"0x");
        body.append(hex.as_str());
        body.append("\"");
        proof {
            assert(body@ =~= tx_hash_body(tx@));
        }
        let r = success_string(body.as_str());

        let ghost pre: Node = *self;
        self.pool.push_pending(tx.clone());
        proof {
            assert(self.pool_view() =~= pre.pool_view().push(tx@));
            assert(self.blocks_view() =~= pre.blocks_view());
            assert(seq![Some(tx@)][0] == Some(tx@));
            assert(sendraw_params_ok(seq![Some(tx@)]));
        }
        let mode = self.miner.mode;
        match mode {
            MiningMode::Instant { max_transactions, listener: _ } => {
                self.instant_mine(max_transactions);
                proof {
                    if max_transactions >= 1 {
                        let txs = pre.pool_view().push(tx@);
                        assert(txs[txs.len() - 1] == tx@);
                        assert(txs.contains(tx@));
                        lemma_instant_inclusion(txs, max_transactions, tx@);
                        let j = choose|j: int|
                            0 <= j < mined_chunks(txs, max_transactions).len()
                                && #[trigger] mined_chunks(txs, max_transactions)[j].contains(tx@);
                        assert(self.blocks_view()[pre.blocks_view().len() + j].contains(tx@));
                        assert(pre.block_number() <= pre.blocks_view().len() + j
                            < self.block_number());
                    }
                }
            },
            _ => {},
        }
        r
    }

    /// Execute one decoded call: recognize the method, check what it
    /// needs, answer it, and move the chain accordingly. Every call gets a
    /// structured response; only a usable raw-transaction submission
    /// changes the node, and the block number never decreases.
    pub fn dispatch(&mut self, method: &String, params: &Vec<Option<String>>) -> (r: String)
        requires
            old(self).wf(),
        ensures
            final(self).wf(),
            final(self).mode_spec() == old(self).mode_spec(),
            final(self).signers_view() == old(self).signers_view(),
            final(self).block_number() >= old(self).block_number(),
            call_outcome(*old(self), *final(self), method@, params.deep_view(), r@),
    {
        proof {
            lemma_method_tags_distinct();
        }
        let tag_block_number = String::from_str("eth_blockNumber");
        let tag_chain_id = String::from_str("eth_chainId");
        let tag_accounts = String::from_str("eth_accounts");
        let tag_send_raw = String::from_str("eth_sendRawTransaction");
        if *method == tag_block_number {
            let n = self.blocks.len();
            proof {
                assert(self.block_number() == n);
            }
            let body = dec_string(n as u64);
            success_string(body.as_str())
        } else if *method == tag_chain_id {
            let body = dec_string(CHAIN_ID);
            success_string(body.as_str())
        } else if *method == tag_accounts {
            let list = dec_list_string(&self.signer_accounts);
            let mut body = String::new();
            body.append("[");
            body.append(list.as_str());
            body.append("]");
            proof {
                reveal_strlit("[");
                reveal_strlit("]");
                assert("["@ =~= seq!['[']);
                assert("]"@ =~= seq![']']);
                assert(body@ =~= seq!['['] + dec_list_of(self.signers_view()) + seq![']']);
            }
            success_string(body.as_str())
        } else if *method == tag_send_raw {
            if params.len() == 0 {
                return error_string("-32602", "invalid params");
            }
            let first = &params[0];
            match first {
                Some(tx) => {
                    proof {
                        assert(params.deep_view()[0] == Some(tx@));
                        assert(sendraw_params_ok(params.deep_view()));
                    }
                    let r = self.submit_transaction(tx);
                    proof {
                        assert(seq![Some(tx@)][0]->0 == params.deep_view()[0]->0);
                    }
                    r
                },
                None => {
                    proof {
                        assert(params.deep_view()[0] is None);
                    }
                    error_string("-32602", "invalid params")
                },
            }
        } else {
            proof {
                assert(!known_method(method@));
            }
            error_string("-32601", "method not found")
        }
    }

    /// Execute one opaque request payload: decode it, dispatch the call,
    /// and render the response. A payload that decodes to no call is
    /// answered with a parse error and leaves the node untouched; every
    /// payload gets a structured response, and the block number never
    /// decreases.
    pub fn execute(&mut self, payload: &str) -> (r: String)
        requires
            old(self).wf(),
        ensures
            final(self).wf(),
            final(self).mode_spec() == old(self).mode_spec(),
            final(self).signers_view() == old(self).signers_view(),
            final(self).block_number() >= old(self).block_number(),
            decoded_of(payload@) is None ==> *final(self) == *old(self) && r@
                == parse_error_text(),
            decoded_of(payload@) matches Some(d) ==> call_outcome(
                *old(self),
                *final(self),
                d.0,
                d.1,
                r@,
            ),
    {
        match parse_call(payload) {
            None => error_string("-32700", "parse error"),
            Some((method, params)) => self.dispatch(&method, &params),
        }
    }
}

} // verus!
