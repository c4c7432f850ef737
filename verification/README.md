# automata_sgx_sdk

Build support and remote attestation for Intel SGX enclaves written in Rust.

`src/` is the verified library:

- `env`: the build environment (SDK locations, target word size, SGX mode) and
  the paths derived from it.
- `cutils`: the C compiler and linker flags; snake_case to CamelCase names.
- `builders`: the compiler, linker, EDL generator and signer steps that turn an
  enclave into a signed shared object, as settings, command lines and file
  contents.
- `std_app`: which build an application needs, the enclave packages named by
  its manifest, and the steps of the std build.
- `build_dep`: locating the Teaclave SGX SDK in `cargo metadata` output.
- `enclave`: enclave file names, lazy enclave creation, host-side errors.
- `dcap`: DCAP attestation, as a state machine over the calls out of the
  enclave.
- `text`, `path`: the text and path operations that the above are built on.

`app/` runs what the library plans: it reads the environment and the manifest,
runs `cc`, `sgx_edger8r`, `sgx_sign` and cargo, writes the generated files, and
holds the FFI of enclaves and attestation.
