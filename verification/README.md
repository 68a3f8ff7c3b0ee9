# x402_network

Supported payment networks (Base, Avalanche, Polygon, Sei, XDC, XRPL EVM,
Besu, Solana and their testnets), their legacy names and CAIP-2 identifiers,
and the USDC deployment known on each of them, written in Verus.

- `src/network.rs`: the `Network` and `NetworkFamily` types, naming and
  parsing, and the proofs that every name parses back to its network.
- `src/text.rs`: character-wise string comparison and joining.
- `src/types.rs`: addresses, token assets and deployments.
- `src/usdc.rs`: `USDCDeployment::by_network` and its contract; Solana mint
  texts are decoded by `solana_sdk`.
- `app/lib.rs`: serde and `Display` on the `SerdeNetwork` wrapper (the
  network type itself cannot carry them), the lazily built
  process-wide deployments, and conversions to `alloy` / `solana_sdk` types.
