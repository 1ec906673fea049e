use interpol::error::{BuildError, Field, InterpolError, InterpolErrorKind};
use interpol::mpi_events::collectives::{
    MpiIbcast, MpiIbcastBuilder, MpiIgather, MpiIgatherBuilder, MpiIreduce, MpiIreduceBuilder,
    MpiIscatter, MpiIscatterBuilder,
};
use interpol::mpi_events::management::{
    MpiFinalize, MpiFinalizeBuilder, MpiInit, MpiInitBuilder, MpiInitThread, MpiInitThreadBuilder,
};
use interpol::mpi_events::point_to_point::{
    MpiIrecv, MpiIrecvBuilder, MpiIsend, MpiIsendBuilder, MpiRecv, MpiRecvBuilder, MpiSend,
    MpiSendBuilder,
};
use interpol::mpi_events::synchronization::{
    MpiBarrier, MpiBarrierBuilder, MpiIbarrier, MpiIbarrierBuilder, MpiTest, MpiTestBuilder,
    MpiWait, MpiWaitBuilder,
};
use interpol::types::{MpiCallType, MpiOp, Usecs};

const MPI_COMM_WORLD: i32 = 0;
const MPI_THREAD_SINGLE: i32 = 0;
const MPI_THREAD_MULTIPLE: i32 = 3;

#[allow(dead_code)]
enum MpiOpType {
    Max,
    Sum,
    Prod,
}

fn usecs(t: f64) -> Usecs {
    Usecs::from_bits(t.to_bits())
}

#[test]
fn mpi_ibcast_builds() {
    let ibcast_new = MpiIbcast::new(0, 1, 8, MPI_COMM_WORLD, 7, 1024, 2048);
    let ibcast_builder = MpiIbcastBuilder::default()
        .current_rank(0)
        .partner_rank(1)
        .nb_bytes(8)
        .comm(MPI_COMM_WORLD)
        .req(7)
        .tsc(1024)
        .duration(2048)
        .build()
        .expect("failed to build `MpiIbcast`");

    assert_eq!(ibcast_new, ibcast_builder);
}

#[test]
fn mpi_igather_builds() {
    let igather_new = MpiIgather::new(0, 1, 8, 0, MPI_COMM_WORLD, 7, 1024, 2048);
    let igather_builder = MpiIgatherBuilder::default()
        .current_rank(0)
        .partner_rank(1)
        .nb_bytes_send(8)
        .nb_bytes_recv(0)
        .comm(MPI_COMM_WORLD)
        .req(7)
        .tsc(1024)
        .duration(2048)
        .build()
        .expect("failed to build `MpiIgather`");

    assert_eq!(igather_new, igather_builder);
}

#[test]
fn mpi_ireduce_builds() {
    let ireduce_new =
        MpiIreduce::new(0, 1, 8, MpiOpType::Sum as u8, MPI_COMM_WORLD, 7, 1024, 2048);
    let ireduce_builder = MpiIreduceBuilder::default()
        .current_rank(0)
        .root_rank(1)
        .nb_bytes(8)
        .op_type(MpiOpType::Sum as u8)
        .comm(MPI_COMM_WORLD)
        .req(7)
        .tsc(1024)
        .duration(2048)
        .build()
        .expect("failed to build `MpiIreduce`");

    assert_eq!(ireduce_new, ireduce_builder);
}

#[test]
fn mpi_iscatter_builds() {
    let iscatter_new = MpiIscatter::new(0, 1, 8, 0, MPI_COMM_WORLD, 7, 1024, 2048);
    let iscatter_builder = MpiIscatterBuilder::default()
        .current_rank(0)
        .partner_rank(1)
        .nb_bytes_send(8)
        .nb_bytes_recv(0)
        .comm(MPI_COMM_WORLD)
        .req(7)
        .tsc(1024)
        .duration(2048)
        .build()
        .expect("failed to build `MpiIscatter`");

    assert_eq!(iscatter_new, iscatter_builder);
}

#[test]
fn mpi_finalize_builds() {
    let finalize_new = MpiFinalize::new(0, 1024, usecs(0.1));
    let finalize_builder = MpiFinalizeBuilder::default()
        .current_rank(0)
        .tsc(1024)
        .time(usecs(0.1))
        .build()
        .expect("failed to build `MpiFinalize`");

    assert_eq!(finalize_new, finalize_builder);
}

#[test]
fn mpi_init_builds() {
    let init_new = MpiInit::new(0, 1024, usecs(0.1));
    let init_builder = MpiInitBuilder::default()
        .current_rank(0)
        .tsc(1024)
        .time(usecs(0.1))
        .build()
        .expect("failed to build `MpiInit`");

    assert_eq!(init_new, init_builder);
}

#[test]
fn mpi_init_thread_builds() {
    let init_thread_new =
        MpiInitThread::new(0, 1024, usecs(0.1), MPI_THREAD_SINGLE, MPI_THREAD_SINGLE);
    let init_thread_builder = MpiInitThreadBuilder::default()
        .current_rank(0)
        .tsc(1024)
        .time(usecs(0.1))
        .required_thread_lvl(MPI_THREAD_SINGLE)
        .provided_thread_lvl(MPI_THREAD_SINGLE)
        .build()
        .expect("failed to build `MpiInitThread`");

    assert_eq!(init_thread_new, init_thread_builder);
}

#[test]
fn mpi_irecv_builds() {
    let irecv_new = MpiIrecv::new(0, 1, 8, MPI_COMM_WORLD, 7, 42, 1024, 2048);
    let irecv_builder = MpiIrecvBuilder::default()
        .current_rank(0)
        .partner_rank(1)
        .nb_bytes(8)
        .comm(MPI_COMM_WORLD)
        .req(7)
        .tag(42)
        .tsc(1024)
        .duration(2048)
        .build()
        .expect("failed to build `MpiIrecv`");

    assert_eq!(irecv_new, irecv_builder);
}

#[test]
fn mpi_isend_builds() {
    let isend_new = MpiIsend::new(0, 1, 8, MPI_COMM_WORLD, 7, 42, 1024, 2048);
    let isend_builder = MpiIsendBuilder::default()
        .current_rank(0)
        .partner_rank(1)
        .nb_bytes(8)
        .comm(MPI_COMM_WORLD)
        .req(7)
        .tag(42)
        .tsc(1024)
        .duration(2048)
        .build()
        .expect("failed to build `MpiIsend`");

    assert_eq!(isend_new, isend_builder);
}

#[test]
fn mpi_recv_builds() {
    let recv_new = MpiRecv::new(0, 1, 8, MPI_COMM_WORLD, 42, 1024, 2048);
    let recv_builder = MpiRecvBuilder::default()
        .current_rank(0)
        .partner_rank(1)
        .nb_bytes(8)
        .comm(MPI_COMM_WORLD)
        .tag(42)
        .tsc(1024)
        .duration(2048)
        .build()
        .expect("failed to build `MpiRecv`");

    assert_eq!(recv_new, recv_builder);
}

#[test]
fn mpi_send_builds() {
    let send_new = MpiSend::new(0, 1, 8, MPI_COMM_WORLD, 42, 1024, 2048);
    let send_builder = MpiSendBuilder::default()
        .current_rank(0)
        .partner_rank(1)
        .nb_bytes(8)
        .comm(MPI_COMM_WORLD)
        .tag(42)
        .tsc(1024)
        .duration(2048)
        .build()
        .expect("failed to build `MpiSend`");

    assert_eq!(send_new, send_builder);
}

#[test]
fn mpi_barrier_builds() {
    let barrier_new = MpiBarrier::new(0, 0, 1024, 2048);
    let barrier_builder = MpiBarrierBuilder::default()
        .current_rank(0)
        .comm(0)
        .tsc(1024)
        .duration(2048)
        .build()
        .expect("failed to build `MpiBarrier`");

    assert_eq!(barrier_new, barrier_builder);
}

#[test]
fn mpi_ibarrier_builds() {
    let ibarrier_new = MpiIbarrier::new(0, 0, 0, 1024, 2048);
    let ibarrier_builder = MpiIbarrierBuilder::default()
        .current_rank(0)
        .comm(0)
        .req(0)
        .tsc(1024)
        .duration(2048)
        .build()
        .expect("failed to build `MpiIbarrier`");

    assert_eq!(ibarrier_new, ibarrier_builder);
}

#[test]
fn mpi_test_builds() {
    let test_new = MpiTest::new(0, 0, false, 1024, 2048);
    let test_builder = MpiTestBuilder::default()
        .current_rank(0)
        .req(0)
        .finished(false)
        .tsc(1024)
        .duration(2048)
        .build()
        .expect("failed to build `MpiTest`");

    assert_eq!(test_new, test_builder);
}

#[test]
fn mpi_wait_builds() {
    let wait_new = MpiWait::new(0, 0, 1024, 2048);
    let wait_builder = MpiWaitBuilder::default()
        .current_rank(0)
        .req(0)
        .tsc(1024)
        .duration(2048)
        .build()
        .expect("failed to build `MpiWait`");

    assert_eq!(wait_new, wait_builder);
}

#[test]
fn empty_builder_names_first_field() {
    assert_eq!(
        MpiSendBuilder::default().build(),
        Err(BuildError::UninitializedField(Field::CurrentRank))
    );
}

#[test]
fn builder_names_first_missing_field_in_order() {
    let r = MpiIsendBuilder::default()
        .current_rank(0)
        .partner_rank(1)
        .nb_bytes(8)
        .tag(42)
        .tsc(1024)
        .build();
    assert_eq!(r, Err(BuildError::UninitializedField(Field::Comm)));

    let r = MpiWaitBuilder::default().current_rank(0).req(3).tsc(10).build();
    assert_eq!(r, Err(BuildError::UninitializedField(Field::Duration)));

    let r = MpiInitThreadBuilder::default()
        .current_rank(2)
        .tsc(5)
        .time(usecs(1.5))
        .provided_thread_lvl(MPI_THREAD_MULTIPLE)
        .build();
    assert_eq!(r, Err(BuildError::UninitializedField(Field::RequiredThreadLvl)));
}

#[test]
fn setter_overrides_earlier_value() {
    let test = MpiTestBuilder::default()
        .current_rank(0)
        .req(4)
        .finished(false)
        .finished(true)
        .tsc(1)
        .duration(2)
        .build()
        .expect("failed to build `MpiTest`");
    assert_eq!(test, MpiTest::new(0, 4, true, 1, 2));
    assert!(test.finished);
}

#[test]
fn records_with_equal_fields_compare_equal() {
    let a = MpiSend::new(3, 4, 16, 1, 9, 100, 5);
    let b = MpiSend::new(3, 4, 16, 1, 9, 100, 5);
    let c = MpiSend::new(3, 4, 16, 1, 9, 101, 5);
    assert_eq!(a, b);
    assert_ne!(a, c);
}

#[test]
fn build_error_becomes_builder_failure() {
    let e = InterpolError::from_build(BuildError::UninitializedField(Field::NbBytesRecv));
    assert_eq!(e.kind(), InterpolErrorKind::Builder);
    assert_eq!(e.reason, "`nb_bytes_recv` must be initialized");
    assert_eq!(e.message(), "Builder error: `nb_bytes_recv` must be initialized");
}

#[test]
fn invalid_field_reason() {
    let e = InterpolError::from_build(BuildError::InvalidField(Field::OpType));
    assert_eq!(e.kind(), InterpolErrorKind::Builder);
    assert_eq!(e.message(), "Builder error: `op_type` has an invalid value");
}

#[test]
fn io_error_message() {
    let e = InterpolError::io(String::from("disk full"));
    assert_eq!(e.kind(), InterpolErrorKind::Io);
    assert_eq!(e.message(), "I/O error: disk full");
}

#[test]
fn field_names_match_serialized_names() {
    assert_eq!(Field::CurrentRank.name(), "current_rank");
    assert_eq!(Field::ProvidedThreadLvl.name(), "provided_thread_lvl");
    assert_eq!(Field::OpType.name(), "op_type");
}

#[test]
fn call_type_codes_follow_declaration_order() {
    assert_eq!(MpiCallType::from_code(0), Some(MpiCallType::Init));
    assert_eq!(MpiCallType::from_code(3), Some(MpiCallType::Send));
    assert_eq!(MpiCallType::from_code(14), Some(MpiCallType::Iscatter));
    assert_eq!(MpiCallType::from_code(15), None);
    assert_eq!(MpiCallType::from_code(-1), None);
}

#[test]
fn op_codes_follow_declaration_order() {
    assert_eq!(MpiOp::Opnull.code(), 0);
    assert_eq!(MpiOp::Sum.code(), 3);
    assert_eq!(MpiOp::Prod.code(), 4);
    assert_eq!(MpiOp::Replace.code(), 13);
}

#[test]
fn wall_time_keeps_its_bits() {
    let t = usecs(1024.0);
    assert_eq!(f64::from_bits(t.to_bits()), 1024.0);
}
