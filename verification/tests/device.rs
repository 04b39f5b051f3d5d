use std::collections::HashMap;

use cl_matrix::{
    Allocation, Buffer, ClMatrix, ClMatrixMode, Completion, Dispatch, Download, ElementType, Error,
    Event, KernelArg, Matrix, Upload, WorkSize,
};

/// A device in host memory for `int` elements. It starts every kernel at once,
/// and refuses to start one that reads a buffer without waiting for the last
/// kernel that wrote it.
struct Device {
    memory: HashMap<u64, Vec<i32>>,
    writers: HashMap<u64, Event>,
    events: u64,
}

fn buffer_at(dispatch: &Dispatch<i32>, position: usize) -> Buffer {
    match dispatch.args[position] {
        KernelArg::Buffer(buffer) => buffer,
        _ => panic!("argument {} of {} is no buffer", position, dispatch.kernel),
    }
}

fn size_at(dispatch: &Dispatch<i32>, position: usize) -> usize {
    match dispatch.args[position] {
        KernelArg::Size(size) => size,
        _ => panic!("argument {} of {} is no size", position, dispatch.kernel),
    }
}

fn scalar_at(dispatch: &Dispatch<i32>, position: usize) -> i32 {
    match dispatch.args[position] {
        KernelArg::Scalar(value) => value,
        _ => panic!("argument {} of {} is no scalar", position, dispatch.kernel),
    }
}

impl Device {
    fn new() -> Device {
        Device { memory: HashMap::new(), writers: HashMap::new(), events: 0 }
    }

    fn allocate(&mut self, request: Allocation) -> Buffer {
        let id = self.memory.len() as u64;
        self.memory.insert(id, vec![0; request.length]);
        Buffer { id, len: request.length }
    }

    fn upload(&mut self, upload: Upload<i32>) {
        assert_eq!(upload.data.len(), upload.buffer.len);
        self.memory.insert(upload.buffer.id, upload.data.clone());
    }

    fn download(&self, request: Download) -> Vec<i32> {
        assert_eq!(self.writers.get(&request.buffer.id).copied(), request.wait);
        self.memory[&request.buffer.id].clone()
    }

    fn read(&self, dispatch: &Dispatch<i32>, position: usize) -> Vec<i32> {
        let buffer = buffer_at(dispatch, position);
        if let Some(writer) = self.writers.get(&buffer.id) {
            assert!(dispatch.wait.contains(writer), "{} does not wait", dispatch.kernel);
        }
        self.memory[&buffer.id].clone()
    }

    fn enqueue(&mut self, dispatch: &Dispatch<i32>) -> Completion {
        let (target, contents) = match dispatch.kernel.as_str() {
            "vector_copy_to_int" => (1, self.read(dispatch, 0)),
            "vector_add_int" => (2, self.zip(dispatch, |x, y| x + y)),
            "vector_sub_int" => (2, self.zip(dispatch, |x, y| x - y)),
            "vector_multiply_int" => (2, self.zip(dispatch, |x, y| x * y)),
            "vector_max_int" => {
                let threshold = scalar_at(dispatch, 2);
                (1, self.read(dispatch, 0).into_iter().map(|x| x.max(threshold)).collect())
            }
            "vector_min_int" => {
                let threshold = scalar_at(dispatch, 2);
                (1, self.read(dispatch, 0).into_iter().map(|x| x.min(threshold)).collect())
            }
            "vector_transpose_int" => (1, self.transpose(dispatch)),
            "vector_dot_int" => (2, self.dot(dispatch)),
            _ => return Completion::KernelMissing,
        };
        let buffer = buffer_at(dispatch, target);
        if contents.len() != buffer.len {
            return Completion::Rejected;
        }
        self.memory.insert(buffer.id, contents);
        self.events += 1;
        let event = Event { id: self.events };
        self.writers.insert(buffer.id, event);
        Completion::Enqueued(event)
    }

    fn zip(&self, dispatch: &Dispatch<i32>, f: fn(i32, i32) -> i32) -> Vec<i32> {
        let a = self.read(dispatch, 0);
        let b = self.read(dispatch, 1);
        assert_eq!(dispatch.work, WorkSize::Linear(a.len()));
        (0..a.len()).map(|i| f(a[i], b[i])).collect()
    }

    fn transpose(&self, dispatch: &Dispatch<i32>) -> Vec<i32> {
        let a = self.read(dispatch, 0);
        let rows = size_at(dispatch, 2);
        let columns = size_at(dispatch, 3);
        assert_eq!(dispatch.work, WorkSize::Grid(rows, columns));
        let mut out = vec![0; rows * columns];
        for i in 0..rows {
            for j in 0..columns {
                out[j * rows + i] = a[i * columns + j];
            }
        }
        out
    }

    fn dot(&self, dispatch: &Dispatch<i32>) -> Vec<i32> {
        let a = self.read(dispatch, 0);
        let b = self.read(dispatch, 1);
        let inner = size_at(dispatch, 3);
        let columns = size_at(dispatch, 4);
        let rows = match dispatch.work {
            WorkSize::Grid(rows, across) if across == columns => rows,
            _ => panic!("dot runs over the product's positions"),
        };
        let mut out = vec![0; rows * columns];
        for i in 0..rows {
            for j in 0..columns {
                out[i * columns + j] = (0..inner).map(|l| a[i * inner + l] * b[l * columns + j]).sum();
            }
        }
        out
    }

    fn matrix(&mut self, rows: usize, columns: usize, mode: ClMatrixMode) -> ClMatrix<i32> {
        let request = Allocation::new(rows, columns, mode).unwrap();
        ClMatrix::new(self.allocate(request), rows, columns, mode, ElementType::Int).unwrap()
    }

    fn from_matrix(&mut self, host: &Matrix<i32>, mode: ClMatrixMode) -> ClMatrix<i32> {
        let request = Allocation::new(host.rows(), host.columns(), mode).unwrap();
        let buffer = self.allocate(request);
        let (matrix, upload) =
            ClMatrix::from_matrix(buffer, host, mode, ElementType::Int).unwrap();
        self.upload(upload);
        matrix
    }

    fn run(&mut self, plan: Result<Dispatch<i32>, Error>, output: &mut ClMatrix<i32>) {
        let dispatch = plan.unwrap();
        let answer = self.enqueue(&dispatch);
        let before = output.get_event();
        assert_eq!(output.complete(&dispatch, answer), Ok(before));
    }

    fn get(&self, matrix: &ClMatrix<i32>) -> Matrix<i32> {
        matrix.get(self.download(matrix.download())).unwrap()
    }
}

fn host(rows: usize, columns: usize, elements: Vec<i32>) -> Matrix<i32> {
    Matrix::from_vec(rows, columns, elements).unwrap()
}

#[test]
fn cl_matrix_add() {
    let ref mut ctx = Device::new();

    let a = Matrix::from_vec(1, 10000, (0..10000).collect()).unwrap();
    let b = Matrix::from_vec(1, 10000, (0..10000).map(|x| x * 2).collect()).unwrap();

    let a_cl = ctx.from_matrix(&a, ClMatrixMode::In);
    let b_cl = ctx.from_matrix(&b, ClMatrixMode::In);
    let mut c_cl: ClMatrix<i32> = ctx.matrix(1, 10000, ClMatrixMode::Out);

    ctx.run(a_cl.add(&b_cl, &c_cl), &mut c_cl);

    let c = ctx.get(&c_cl);

    for i in 0..10000 {
        assert!(c.get(0, i).unwrap() == &(a.get(0, i).unwrap() + b.get(0, i).unwrap()));
    }
}

#[test]
fn cl_matrix_add_reuse() {
    let ref mut ctx = Device::new();

    let a = Matrix::from_vec(1, 10000, (0..10000).collect()).unwrap();
    let b = Matrix::from_vec(1, 10000, (0..10000).map(|x| x * 2).collect()).unwrap();

    let a_cl = ctx.from_matrix(&a, ClMatrixMode::In);
    let mut b_cl = ctx.from_matrix(&b, ClMatrixMode::In);

    ctx.run(a_cl.add(&b_cl, &b_cl), &mut b_cl); // b = a+b
}

#[test]
fn add_of_a_row_and_its_double_is_its_triple() {
    let ref mut ctx = Device::new();
    let a_cl = ctx.from_matrix(&host(1, 10000, (0..10000).collect()), ClMatrixMode::In);
    let b_cl =
        ctx.from_matrix(&host(1, 10000, (0..10000).map(|x| x * 2).collect()), ClMatrixMode::In);
    let mut c_cl = ctx.matrix(1, 10000, ClMatrixMode::Out);
    ctx.run(a_cl.add(&b_cl, &c_cl), &mut c_cl);
    let c = ctx.get(&c_cl);
    assert_eq!(c, host(1, 10000, (0..10000).map(|x| x * 3).collect()));
    assert_eq!(c.get(0, 9999), Some(&29997));
}

#[test]
fn add_into_an_input_leaves_the_sum_there() {
    let ref mut ctx = Device::new();
    let a_cl = ctx.from_matrix(&host(1, 10000, (0..10000).collect()), ClMatrixMode::In);
    let mut b_cl =
        ctx.from_matrix(&host(1, 10000, (0..10000).map(|x| x * 2).collect()), ClMatrixMode::In);
    ctx.run(a_cl.add(&b_cl, &b_cl), &mut b_cl);
    assert_eq!(ctx.get(&b_cl), host(1, 10000, (0..10000).map(|x| x * 3).collect()));
    assert_eq!(ctx.get(&a_cl), host(1, 10000, (0..10000).collect()));
    assert!(b_cl.get_event().is_some());
    assert_eq!(a_cl.get_event(), None);
}

#[test]
fn upload_then_download_gives_the_matrix_back() {
    let ref mut ctx = Device::new();
    for (rows, columns) in [(1, 1), (1, 7), (7, 1), (3, 4), (4, 3)] {
        let m = host(rows, columns, (0..(rows * columns) as i32).map(|x| 5 - x * x).collect());
        let m_cl = ctx.from_matrix(&m, ClMatrixMode::Mut);
        assert_eq!(m_cl.download().wait, None);
        assert_eq!(ctx.get(&m_cl), m);
    }
}

#[test]
fn set_overwrites_what_was_uploaded() {
    let ref mut ctx = Device::new();
    let m_cl = ctx.from_matrix(&host(2, 2, vec![1, 2, 3, 4]), ClMatrixMode::Mut);
    let other = host(2, 2, vec![5, 6, 7, 8]);
    ctx.upload(m_cl.set(&other).unwrap());
    assert_eq!(ctx.get(&m_cl), other);
    assert_eq!(m_cl.get_event(), None);
}

#[test]
fn sub_and_multiply_work_element_by_element() {
    let ref mut ctx = Device::new();
    let a = ctx.from_matrix(&host(2, 3, vec![1, -2, 3, 4, 5, -6]), ClMatrixMode::In);
    let b = ctx.from_matrix(&host(2, 3, vec![7, 8, -9, 10, 0, 12]), ClMatrixMode::In);
    let mut c = ctx.matrix(2, 3, ClMatrixMode::Out);
    ctx.run(a.sub(&b, &c), &mut c);
    assert_eq!(ctx.get(&c), host(2, 3, vec![-6, -10, 12, -6, 5, -18]));
    ctx.run(a.multiply(&b, &c), &mut c);
    assert_eq!(ctx.get(&c), host(2, 3, vec![7, -16, -27, 40, 0, -72]));
}

#[test]
fn max_and_min_hold_each_element_against_the_threshold() {
    let ref mut ctx = Device::new();
    let a = ctx.from_matrix(&host(1, 5, vec![-3, 0, 2, 3, 9]), ClMatrixMode::In);
    let mut c = ctx.matrix(1, 5, ClMatrixMode::Out);
    ctx.run(a.max(2, &c), &mut c);
    assert_eq!(ctx.get(&c), host(1, 5, vec![2, 2, 2, 3, 9]));
    ctx.run(a.min(2, &c), &mut c);
    assert_eq!(ctx.get(&c), host(1, 5, vec![-3, 0, 2, 2, 2]));
}

#[test]
fn dot_is_the_matrix_product() {
    let ref mut ctx = Device::new();
    let a = ctx.from_matrix(&host(2, 3, vec![1, 2, 3, 4, 5, 6]), ClMatrixMode::In);
    let b = ctx.from_matrix(&host(3, 2, vec![7, 8, 9, 10, 11, 12]), ClMatrixMode::In);
    let mut c = ctx.matrix(2, 2, ClMatrixMode::Out);
    ctx.run(a.dot(&b, &c), &mut c);
    assert_eq!(ctx.get(&c), host(2, 2, vec![58, 64, 139, 154]));
}

#[test]
fn transpose_mirrors_and_twice_gives_the_matrix_back() {
    let ref mut ctx = Device::new();
    let m = host(2, 3, vec![1, 2, 3, 4, 5, 6]);
    let a = ctx.from_matrix(&m, ClMatrixMode::In);
    let mut t = ctx.matrix(3, 2, ClMatrixMode::Mut);
    let mut back = ctx.matrix(2, 3, ClMatrixMode::Out);
    ctx.run(a.transpose(&t), &mut t);
    assert_eq!(ctx.get(&t), host(3, 2, vec![1, 4, 2, 5, 3, 6]));
    ctx.run(t.transpose(&back), &mut back);
    assert_eq!(ctx.get(&back), m);
}

#[test]
fn add_in_place_equals_add_apart_and_copy() {
    let ref mut ctx = Device::new();
    let a_host = host(2, 2, vec![1, 2, 3, 4]);
    let b_host = host(2, 2, vec![10, 20, 30, 40]);

    let a = ctx.from_matrix(&a_host, ClMatrixMode::In);
    let mut in_place = ctx.from_matrix(&b_host, ClMatrixMode::Mut);
    ctx.run(a.add(&in_place, &in_place), &mut in_place);

    let mut b = ctx.from_matrix(&b_host, ClMatrixMode::Mut);
    let mut c = ctx.matrix(2, 2, ClMatrixMode::Mut);
    ctx.run(a.add(&b, &c), &mut c);
    ctx.run(c.copy_to(&b), &mut b);

    assert_eq!(ctx.get(&in_place), host(2, 2, vec![11, 22, 33, 44]));
    assert_eq!(ctx.get(&in_place), ctx.get(&b));
}

#[test]
fn a_chain_waits_by_itself() {
    let ref mut ctx = Device::new();
    let a = ctx.from_matrix(&host(1, 4, vec![1, 2, 3, 4]), ClMatrixMode::In);
    let b = ctx.from_matrix(&host(1, 4, vec![5, 6, 7, 8]), ClMatrixMode::In);
    let mut c = ctx.matrix(1, 4, ClMatrixMode::Mut);
    let mut d = ctx.matrix(1, 4, ClMatrixMode::Out);

    ctx.run(a.add(&b, &c), &mut c);
    let second = c.multiply(&a, &d).unwrap();
    assert_eq!(second.wait, vec![c.get_event().unwrap()]);
    let answer = ctx.enqueue(&second);
    d.complete(&second, answer).unwrap();

    assert_eq!(ctx.get(&d), host(1, 4, vec![6, 16, 30, 48]));
    assert_eq!(d.download().wait, d.get_event());
    assert_ne!(d.get_event(), c.get_event());
}

#[test]
fn a_kernel_the_device_lacks_is_reported_and_changes_nothing() {
    let ref mut ctx = Device::new();
    let a = ctx.from_matrix(&host(1, 3, vec![1, 2, 3]), ClMatrixMode::In);
    let mut c = ctx.matrix(1, 3, ClMatrixMode::Out);
    ctx.run(a.copy_to(&c), &mut c);
    let before = c.get_event();
    let derivative = a.dmax(2, &c).unwrap();
    let answer = ctx.enqueue(&derivative);
    assert_eq!(c.complete(&derivative, answer), Err(Error::KernelNotFound));
    assert_eq!(c.get_event(), before);
    assert_eq!(ctx.get(&c), host(1, 3, vec![1, 2, 3]));
}
