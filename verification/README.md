# scenic_review

The verified core of a scenic-spot review platform on Solana: users review
scenic spots, an oracle accepts or rejects each review, accepted reviews earn
token rewards that grow with the user's level, and tokens buy coupons that are
redeemed as NFTs.

- `src/` is the library, verified with Verus. Each instruction of the program
  is a function over the accounts it touches, its arguments and what it reads
  of the chain, with a contract that says exactly when it is refused (the
  signer's authority first) and what it writes, pays and announces
  otherwise. `src/laws.rs` states the rules that
  span instructions.
- `app/` is the Anchor program around it: account layouts, instruction
  contexts, clock reads, token-program calls and events. The few steps that
  compute with floats (a rating's decimal places and the average rating)
  stand there too.
- `tests/` runs the library on concrete scenarios.
